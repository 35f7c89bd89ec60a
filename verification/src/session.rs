//! The streaming transcription session.
//!
//! A session runs two activities over one duplex connection. The send activity
//! writes audio chunks in the order they are supplied and closes the stream
//! when the supply ends or a write fails. The receive activity appends every
//! decodable transcript fragment to the transcript until the remote closes or
//! reading fails. Each activity is a small state machine here; the caller does
//! the reading and writing and reports what happened as events.
//!
//! The two machines share no state, so the transcript is the same however the
//! two activities are interleaved. The laws at the end of this module say so.

use crate::config::TranscriptionMessage;
use crate::text::{joined, opt_text};
use vstd::prelude::*;
use vstd::string::*;

verus! {

/// What the connection delivered to the receive activity.
#[derive(Debug)]
pub enum InboundMessage {
    /// A text frame and its payload.
    Text(String),
    /// A frame that carries no transcript: binary, ping or pong.
    Other,
    /// The remote's close frame.
    Close,
    /// Reading from the connection failed.
    Failed,
    /// The connection ended without a close frame.
    End,
}

/// What a message means to the receive activity.
pub enum Inbound {
    /// A text frame that holds a fragment, with the fragment's text.
    Fragment(Seq<char>),
    /// A text frame that holds no fragment.
    Garbled,
    Other,
    Close,
    Failed,
    End,
}

/// What a text frame means, given the fragment decoded from it.
pub open spec fn text_frame(fragment: Option<Seq<char>>) -> Inbound {
    match fragment {
        Some(text) => Inbound::Fragment(text),
        None => Inbound::Garbled,
    }
}

impl View for InboundMessage {
    type V = Inbound;

    open spec fn view(&self) -> Inbound {
        match self {
            InboundMessage::Text(frame) => text_frame(TranscriptionMessage::decoded(frame@)),
            InboundMessage::Other => Inbound::Other,
            InboundMessage::Close => Inbound::Close,
            InboundMessage::Failed => Inbound::Failed,
            InboundMessage::End => Inbound::End,
        }
    }
}

impl Inbound {
    /// Whether this message ends the receive activity.
    pub open spec fn ends_stream(self) -> bool {
        self is Close || self is Failed || self is End
    }
}

/// The texts joined in order, with one space between neighbours.
pub open spec fn space_join(texts: Seq<Seq<char>>) -> Seq<char>
    decreases texts.len(),
{
    if texts.len() == 0 {
        Seq::empty()
    } else if texts.len() == 1 {
        texts[0]
    } else {
        texts[0] + seq![' '] + space_join(texts.drop_first())
    }
}

/// The fragment texts of the messages that arrive before the stream ends, in
/// arrival order. Text frames that hold no fragment contribute nothing.
pub open spec fn fragments_heard(messages: Seq<Inbound>) -> Seq<Seq<char>>
    decreases messages.len(),
{
    if messages.len() == 0 {
        Seq::empty()
    } else if messages[0].ends_stream() {
        Seq::empty()
    } else {
        let rest = fragments_heard(messages.drop_first());
        match messages[0] {
            Inbound::Fragment(text) => seq![text] + rest,
            _ => rest,
        }
    }
}

/// State of the receive activity.
pub struct ReceiverView {
    /// The transcript aggregated so far.
    pub transcript: Seq<char>,
    /// Whether a fragment was appended yet.
    pub started: bool,
    /// How many text frames were skipped because they held no fragment; the
    /// count stops at `u64::MAX`.
    pub skipped: u64,
    /// Whether the activity has ended.
    pub finished: bool,
}

impl ReceiverView {
    /// The state at the start of a session.
    pub open spec fn start() -> ReceiverView {
        ReceiverView { transcript: Seq::empty(), started: false, skipped: 0, finished: false }
    }

    /// The state after one more message. A finished activity takes no notice
    /// of further messages.
    pub open spec fn step(self, message: Inbound) -> ReceiverView {
        if self.finished {
            self
        } else {
            match message {
                Inbound::Fragment(text) => ReceiverView {
                    transcript: if self.started {
                        self.transcript + seq![' '] + text
                    } else {
                        self.transcript + text
                    },
                    started: true,
                    ..self
                },
                Inbound::Garbled => ReceiverView {
                    skipped: if self.skipped < u64::MAX {
                        (self.skipped + 1) as u64
                    } else {
                        self.skipped
                    },
                    ..self
                },
                Inbound::Other => self,
                Inbound::Close => ReceiverView { finished: true, ..self },
                Inbound::Failed => ReceiverView { finished: true, ..self },
                Inbound::End => ReceiverView { finished: true, ..self },
            }
        }
    }

    /// The state after a sequence of messages.
    pub open spec fn run(self, messages: Seq<Inbound>) -> ReceiverView
        decreases messages.len(),
    {
        if messages.len() == 0 {
            self
        } else {
            self.step(messages[0]).run(messages.drop_first())
        }
    }
}

/// The receive activity: owns the transcript until the stream has ended.
#[derive(Debug)]
pub struct TranscriptReceiver {
    transcript: String,
    started: bool,
    skipped: u64,
    finished: bool,
}

impl View for TranscriptReceiver {
    type V = ReceiverView;

    closed spec fn view(&self) -> ReceiverView {
        ReceiverView {
            transcript: self.transcript@,
            started: self.started,
            skipped: self.skipped,
            finished: self.finished,
        }
    }
}

impl TranscriptReceiver {
    /// A receiver at the start of a session.
    pub fn new() -> (res: Self)
        ensures
            res@ == ReceiverView::start(),
    {
        TranscriptReceiver { transcript: String::new(), started: false, skipped: 0, finished: false }
    }

    /// Takes what was decoded from one text frame: a fragment is appended to
    /// the transcript, after a space where it is not the first; `None` is
    /// counted as a skipped frame. Returns whether the caller should go on
    /// reading.
    pub fn hear(&mut self, fragment: Option<TranscriptionMessage>) -> (more: bool)
        ensures
            final(self)@ == old(self)@.step(
                text_frame(
                    match fragment {
                        Some(m) => Some(m.text@),
                        None => None,
                    },
                ),
            ),
            more == !final(self)@.finished,
    {
        if self.finished {
            return false;
        }
        match fragment {
            Some(fragment) => {
                if self.started {
                    proof {
                        reveal_strlit(" ");
                        assert(" "@ =~= seq![' ']);
                    }
                    self.transcript.append(" ");
                }
                self.transcript.append(fragment.text.as_str());
                self.started = true;
            },
            None => {
                if self.skipped < u64::MAX {
                    self.skipped = self.skipped + 1;
                }
            },
        }
        true
    }

    /// Takes one message from the connection. Returns whether the caller
    /// should go on reading.
    pub fn receive(&mut self, message: &InboundMessage) -> (more: bool)
        ensures
            final(self)@ == old(self)@.step(message@),
            more == !final(self)@.finished,
    {
        if self.finished {
            return false;
        }
        match message {
            InboundMessage::Text(frame) => self.hear(TranscriptionMessage::decode(frame.as_str())),
            InboundMessage::Other => true,
            InboundMessage::Close => {
                self.finished = true;
                false
            },
            InboundMessage::Failed => {
                self.finished = true;
                false
            },
            InboundMessage::End => {
                self.finished = true;
                false
            },
        }
    }

    /// Whether the stream has ended.
    pub fn is_finished(&self) -> (res: bool)
        ensures
            res == self@.finished,
    {
        self.finished
    }

    /// How many text frames were skipped because they did not decode.
    pub fn skipped_frames(&self) -> (res: u64)
        ensures
            res == self@.skipped,
    {
        self.skipped
    }

    /// A copy of the transcript, once the stream has ended. Before that
    /// nothing is shown.
    pub fn transcript(&self) -> (res: Option<String>)
        ensures
            opt_text(res) == (if self@.finished {
                Some(self@.transcript)
            } else {
                None
            }),
    {
        if self.finished {
            Some(self.transcript.clone())
        } else {
            None
        }
    }
}

/// What happened on the sending side.
#[derive(Debug)]
pub enum SendEvent {
    /// The audio source supplied its next chunk.
    Chunk(Vec<u8>),
    /// Writing the last transmitted chunk failed.
    WriteFailed,
    /// The audio source is exhausted: recording has stopped.
    SourceClosed,
}

pub enum Outbound {
    Chunk(Seq<u8>),
    WriteFailed,
    SourceClosed,
}

impl View for SendEvent {
    type V = Outbound;

    open spec fn view(&self) -> Outbound {
        match self {
            SendEvent::Chunk(bytes) => Outbound::Chunk(bytes@),
            SendEvent::WriteFailed => Outbound::WriteFailed,
            SendEvent::SourceClosed => Outbound::SourceClosed,
        }
    }
}

/// What the caller is to do on the connection.
#[derive(Debug)]
pub enum SendAction {
    /// Write these bytes as one binary frame.
    Transmit(Vec<u8>),
    /// Signal the end of the stream: send the close frame.
    Close,
    /// Nothing.
    Nothing,
}

pub enum Action {
    Transmit(Seq<u8>),
    Close,
    Nothing,
}

impl View for SendAction {
    type V = Action;

    open spec fn view(&self) -> Action {
        match self {
            SendAction::Transmit(bytes) => Action::Transmit(bytes@),
            SendAction::Close => Action::Close,
            SendAction::Nothing => Action::Nothing,
        }
    }
}

/// State of the send activity.
pub struct SenderView {
    /// Whether chunks are still being transmitted. Once false, the close
    /// signal has been asked for and nothing more is sent.
    pub open: bool,
}

impl SenderView {
    /// The state at the start of a session.
    pub open spec fn start() -> SenderView {
        SenderView { open: true }
    }

    /// The state after one more event.
    pub open spec fn step(self, event: Outbound) -> SenderView {
        SenderView { open: self.open && event is Chunk }
    }

    /// What the activity asks for in answer to an event: a chunk is
    /// transmitted as it is; the first failure or the end of the supply asks
    /// for the close signal; after that nothing is asked for.
    pub open spec fn action(self, event: Outbound) -> Action {
        if !self.open {
            Action::Nothing
        } else {
            match event {
                Outbound::Chunk(bytes) => Action::Transmit(bytes),
                Outbound::WriteFailed => Action::Close,
                Outbound::SourceClosed => Action::Close,
            }
        }
    }

    /// The state after a sequence of events.
    pub open spec fn run(self, events: Seq<Outbound>) -> SenderView
        decreases events.len(),
    {
        if events.len() == 0 {
            self
        } else {
            self.step(events[0]).run(events.drop_first())
        }
    }

    /// The chunks that the activity asks to transmit over a sequence of
    /// events, in the order it asks.
    pub open spec fn transmitted(self, events: Seq<Outbound>) -> Seq<Seq<u8>>
        decreases events.len(),
    {
        if events.len() == 0 {
            Seq::empty()
        } else {
            let rest = self.step(events[0]).transmitted(events.drop_first());
            match self.action(events[0]) {
                Action::Transmit(bytes) => seq![bytes] + rest,
                _ => rest,
            }
        }
    }

    /// How often the activity asks for the close signal over a sequence of
    /// events.
    pub open spec fn closes(self, events: Seq<Outbound>) -> nat
        decreases events.len(),
    {
        if events.len() == 0 {
            0
        } else {
            let rest = self.step(events[0]).closes(events.drop_first());
            if self.action(events[0]) is Close {
                1 + rest
            } else {
                rest
            }
        }
    }
}

/// All chunks that a sequence of events supplies, in order.
pub open spec fn chunks_supplied(events: Seq<Outbound>) -> Seq<Seq<u8>>
    decreases events.len(),
{
    if events.len() == 0 {
        Seq::empty()
    } else {
        let rest = chunks_supplied(events.drop_first());
        match events[0] {
            Outbound::Chunk(bytes) => seq![bytes] + rest,
            _ => rest,
        }
    }
}

/// The chunks supplied before the first write failure or the end of the
/// supply, in order.
pub open spec fn chunks_before_stop(events: Seq<Outbound>) -> Seq<Seq<u8>>
    decreases events.len(),
{
    if events.len() == 0 {
        Seq::empty()
    } else {
        match events[0] {
            Outbound::Chunk(bytes) => seq![bytes] + chunks_before_stop(events.drop_first()),
            _ => Seq::empty(),
        }
    }
}

/// Whether a sequence of events holds a write failure or the end of the supply.
pub open spec fn has_stop(events: Seq<Outbound>) -> bool {
    exists|i: int| 0 <= i < events.len() && !(#[trigger] events[i] is Chunk)
}

/// The send activity.
#[derive(Debug)]
pub struct ChunkSender {
    open: bool,
}

impl View for ChunkSender {
    type V = SenderView;

    closed spec fn view(&self) -> SenderView {
        SenderView { open: self.open }
    }
}

impl ChunkSender {
    /// A sender at the start of a session.
    pub fn new() -> (res: Self)
        ensures
            res@ == SenderView::start(),
    {
        ChunkSender { open: true }
    }

    /// Takes one event and says what to do on the connection.
    pub fn step(&mut self, event: SendEvent) -> (action: SendAction)
        ensures
            final(self)@ == old(self)@.step(event@),
            action@ == old(self)@.action(event@),
    {
        if !self.open {
            return SendAction::Nothing;
        }
        match event {
            SendEvent::Chunk(bytes) => SendAction::Transmit(bytes),
            SendEvent::WriteFailed => {
                self.open = false;
                SendAction::Close
            },
            SendEvent::SourceClosed => {
                self.open = false;
                SendAction::Close
            },
        }
    }

    /// Whether the close signal has been asked for.
    pub fn is_closed(&self) -> (res: bool)
        ensures
            res == !self@.open,
    {
        !self.open
    }
}

/// An event of either activity.
#[derive(Debug)]
pub enum SessionEvent {
    Inbound(InboundMessage),
    Outbound(SendEvent),
}

pub enum Event {
    Inbound(Inbound),
    Outbound(Outbound),
}

impl View for SessionEvent {
    type V = Event;

    open spec fn view(&self) -> Event {
        match self {
            SessionEvent::Inbound(message) => Event::Inbound(message@),
            SessionEvent::Outbound(event) => Event::Outbound(event@),
        }
    }
}

/// The inbound messages among the events, in order.
pub open spec fn inbound_of(events: Seq<Event>) -> Seq<Inbound>
    decreases events.len(),
{
    if events.len() == 0 {
        Seq::empty()
    } else {
        let rest = inbound_of(events.drop_first());
        match events[0] {
            Event::Inbound(message) => seq![message] + rest,
            Event::Outbound(_) => rest,
        }
    }
}

/// The events of the sending side among the events, in order.
pub open spec fn outbound_of(events: Seq<Event>) -> Seq<Outbound>
    decreases events.len(),
{
    if events.len() == 0 {
        Seq::empty()
    } else {
        let rest = outbound_of(events.drop_first());
        match events[0] {
            Event::Inbound(_) => rest,
            Event::Outbound(event) => seq![event] + rest,
        }
    }
}

/// State of a session: the states of its two activities.
pub struct SessionView {
    pub sender: SenderView,
    pub receiver: ReceiverView,
}

impl SessionView {
    /// The state of a session whose connection has just been opened.
    pub open spec fn start() -> SessionView {
        SessionView { sender: SenderView::start(), receiver: ReceiverView::start() }
    }

    /// The state after one more event: the event moves the activity it
    /// belongs to and leaves the other alone.
    pub open spec fn step(self, event: Event) -> SessionView {
        match event {
            Event::Inbound(message) => SessionView { receiver: self.receiver.step(message), ..self },
            Event::Outbound(e) => SessionView { sender: self.sender.step(e), ..self },
        }
    }

    /// What the session asks for in answer to an event.
    pub open spec fn action(self, event: Event) -> Action {
        match event {
            Event::Inbound(_) => Action::Nothing,
            Event::Outbound(e) => self.sender.action(e),
        }
    }

    /// The state after a sequence of events.
    pub open spec fn run(self, events: Seq<Event>) -> SessionView
        decreases events.len(),
    {
        if events.len() == 0 {
            self
        } else {
            self.step(events[0]).run(events.drop_first())
        }
    }

    /// The chunks that the session asks to transmit over a sequence of events,
    /// in the order it asks.
    pub open spec fn transmitted(self, events: Seq<Event>) -> Seq<Seq<u8>>
        decreases events.len(),
    {
        if events.len() == 0 {
            Seq::empty()
        } else {
            let rest = self.step(events[0]).transmitted(events.drop_first());
            match self.action(events[0]) {
                Action::Transmit(bytes) => seq![bytes] + rest,
                _ => rest,
            }
        }
    }

    /// A session is complete when the close signal has been asked for and the
    /// receive activity has ended.
    pub open spec fn complete(self) -> bool {
        !self.sender.open && self.receiver.finished
    }
}

/// A session over an open connection.
#[derive(Debug)]
pub struct StreamingSession {
    sender: ChunkSender,
    receiver: TranscriptReceiver,
}

impl View for StreamingSession {
    type V = SessionView;

    closed spec fn view(&self) -> SessionView {
        SessionView { sender: self.sender@, receiver: self.receiver@ }
    }
}

impl StreamingSession {
    /// A session whose connection has just been opened.
    pub fn new() -> (res: Self)
        ensures
            res@ == SessionView::start(),
    {
        StreamingSession { sender: ChunkSender::new(), receiver: TranscriptReceiver::new() }
    }

    /// Takes one event of either activity and says what to do on the
    /// connection.
    pub fn step(&mut self, event: SessionEvent) -> (action: SendAction)
        ensures
            final(self)@ == old(self)@.step(event@),
            action@ == old(self)@.action(event@),
    {
        match event {
            SessionEvent::Inbound(message) => {
                self.receiver.receive(&message);
                SendAction::Nothing
            },
            SessionEvent::Outbound(e) => self.sender.step(e),
        }
    }

    /// Whether both activities have ended.
    pub fn is_complete(&self) -> (res: bool)
        ensures
            res == self@.complete(),
    {
        self.sender.is_closed() && self.receiver.is_finished()
    }

    /// A copy of the final transcript, once the session is complete. Before
    /// that nothing is shown.
    pub fn transcript(&self) -> (res: Option<String>)
        ensures
            opt_text(res) == (if self@.complete() {
                Some(self@.receiver.transcript)
            } else {
                None
            }),
    {
        if self.sender.is_closed() {
            self.receiver.transcript()
        } else {
            None
        }
    }

    /// Parts the session into its two activities, to be run as separate tasks.
    pub fn into_halves(self) -> (res: (ChunkSender, TranscriptReceiver))
        ensures
            res.0@ == self@.sender,
            res.1@ == self@.receiver,
    {
        (self.sender, self.receiver)
    }

    /// Puts the two activities together again.
    pub fn from_halves(sender: ChunkSender, receiver: TranscriptReceiver) -> (res: Self)
        ensures
            res@.sender == sender@,
            res@.receiver == receiver@,
    {
        StreamingSession { sender, receiver }
    }
}

/// Why a session could not be run.
#[derive(Debug)]
pub enum SessionError {
    /// No session token is held.
    NotAuthenticated,
    /// The connection could not be opened; with the reason reported.
    Connect(String),
}

pub enum SessionErrorView {
    NotAuthenticated,
    Connect(Seq<char>),
}

impl View for SessionError {
    type V = SessionErrorView;

    open spec fn view(&self) -> SessionErrorView {
        match self {
            SessionError::NotAuthenticated => SessionErrorView::NotAuthenticated,
            SessionError::Connect(reason) => SessionErrorView::Connect(reason@),
        }
    }
}

impl SessionErrorView {
    pub open spec fn message(self) -> Seq<char> {
        match self {
            SessionErrorView::NotAuthenticated => "Not authenticated"@,
            SessionErrorView::Connect(reason) => "Failed to connect to WebSocket: "@ + reason,
        }
    }
}

impl SessionError {
    /// The error as a line of text.
    pub fn message(&self) -> (res: String)
        ensures
            res@ == self@.message(),
    {
        match self {
            SessionError::NotAuthenticated => String::from_str("Not authenticated"),
            SessionError::Connect(reason) => joined(
                "Failed to connect to WebSocket: ",
                reason.as_str(),
            ),
        }
    }
}

/// A session that is authorised but whose connection is not yet open.
#[derive(Debug)]
pub struct PendingSession {
    url: String,
}

impl View for PendingSession {
    type V = Seq<char>;

    /// The address to connect to.
    closed spec fn view(&self) -> Seq<char> {
        self.url@
    }
}

impl PendingSession {
    /// A pending session for the transcription endpoint and a session token:
    /// the token travels as the `token` parameter of the address.
    pub fn new(endpoint: &str, token: &str) -> (res: Self)
        ensures
            res@ == endpoint@ + "?token="@ + token@,
    {
        let mut url = joined(endpoint, "?token=");
        url.append(token);
        PendingSession { url }
    }

    /// The address to connect to.
    pub fn url(&self) -> (res: &String)
        ensures
            res@ == self@,
    {
        &self.url
    }

    /// The connection is open: the session starts.
    pub fn connected(self) -> (res: StreamingSession)
        ensures
            res@ == SessionView::start(),
    {
        StreamingSession::new()
    }

    /// The connection could not be opened: the session fails.
    pub fn refused(self, reason: String) -> (res: SessionError)
        ensures
            res@ == SessionErrorView::Connect(reason@),
    {
        SessionError::Connect(reason)
    }
}

/// What follows a joined text when `texts` are appended to it.
spec fn continuation(texts: Seq<Seq<char>>) -> Seq<char> {
    if texts.len() == 0 {
        Seq::empty()
    } else {
        seq![' '] + space_join(texts)
    }
}

proof fn lemma_join_first(text: Seq<char>, rest: Seq<Seq<char>>)
    ensures
        space_join(seq![text] + rest) == text + continuation(rest),
{
    let all = seq![text] + rest;
    assert(all[0] == text);
    assert(all.drop_first() =~= rest);
    if rest.len() == 0 {
        assert(text + continuation(rest) =~= text);
    } else {
        assert(text + seq![' '] + space_join(rest) =~= text + (seq![' '] + space_join(rest)));
    }
}

proof fn lemma_finished_stays(state: ReceiverView, messages: Seq<Inbound>)
    requires
        state.finished,
    ensures
        state.run(messages) == state,
    decreases messages.len(),
{
    if messages.len() > 0 {
        lemma_finished_stays(state, messages.drop_first());
    }
}

proof fn lemma_receiver_run(state: ReceiverView, messages: Seq<Inbound>)
    requires
        !state.finished,
        state.started || state.transcript == Seq::<char>::empty(),
    ensures
        state.run(messages).transcript == if state.started {
            state.transcript + continuation(fragments_heard(messages))
        } else {
            space_join(fragments_heard(messages))
        },
    decreases messages.len(),
{
    if messages.len() == 0 {
        assert(state.transcript + continuation(fragments_heard(messages)) =~= state.transcript);
    } else {
        let first = messages[0];
        let rest = messages.drop_first();
        let next = state.step(first);
        if first.ends_stream() {
            lemma_finished_stays(next, rest);
            assert(state.transcript + continuation(fragments_heard(messages)) =~= state.transcript);
        } else {
            lemma_receiver_run(next, rest);
            let heard = fragments_heard(rest);
            match first {
                Inbound::Fragment(text) => {
                    lemma_join_first(text, heard);
                    if state.started {
                        assert(state.transcript + seq![' '] + text + continuation(heard)
                            =~= state.transcript + (seq![' '] + (text + continuation(heard))));
                    } else {
                        assert(state.transcript + text =~= text);
                    }
                },
                _ => {},
            }
        }
    }
}

/// The transcript of a receive activity is the space-joined concatenation of
/// the fragment texts, in the order their frames arrived, up to the end of the
/// stream.
pub proof fn lemma_transcript_is_space_join(messages: Seq<Inbound>)
    ensures
        ReceiverView::start().run(messages).transcript == space_join(fragments_heard(messages)),
{
    lemma_receiver_run(ReceiverView::start(), messages);
}

/// In a session each activity sees only its own events: however inbound
/// messages and sending events are interleaved, the receive activity ends in
/// the state it reaches on the inbound messages alone, and the send activity
/// in the state it reaches on the sending events alone.
pub proof fn lemma_activities_are_independent(state: SessionView, events: Seq<Event>)
    ensures
        state.run(events).receiver == state.receiver.run(inbound_of(events)),
        state.run(events).sender == state.sender.run(outbound_of(events)),
        state.transmitted(events) == state.sender.transmitted(outbound_of(events)),
    decreases events.len(),
{
    if events.len() > 0 {
        let rest = events.drop_first();
        lemma_activities_are_independent(state.step(events[0]), rest);
        match events[0] {
            Event::Inbound(message) => {
                let inbound = seq![message] + inbound_of(rest);
                assert(inbound[0] == message);
                assert(inbound.drop_first() =~= inbound_of(rest));
            },
            Event::Outbound(event) => {
                let outbound = seq![event] + outbound_of(rest);
                assert(outbound[0] == event);
                assert(outbound.drop_first() =~= outbound_of(rest));
            },
        }
    }
}

/// The transcript of a session is the space-joined concatenation of the
/// fragment texts in the order their frames were received, whatever sending
/// events lie between them.
pub proof fn lemma_session_transcript(events: Seq<Event>)
    ensures
        SessionView::start().run(events).receiver.transcript == space_join(
            fragments_heard(inbound_of(events)),
        ),
{
    lemma_activities_are_independent(SessionView::start(), events);
    lemma_transcript_is_space_join(inbound_of(events));
}

proof fn lemma_closed_sends_nothing(state: SenderView, events: Seq<Outbound>)
    requires
        !state.open,
    ensures
        state.transmitted(events) == Seq::<Seq<u8>>::empty(),
        state.closes(events) == 0,
    decreases events.len(),
{
    if events.len() > 0 {
        lemma_closed_sends_nothing(state.step(events[0]), events.drop_first());
    }
}

/// The send activity transmits exactly the chunks supplied before the first
/// write failure or the end of the supply, each once and in the order
/// supplied; and it asks for the close signal once if the events hold such a
/// stop, and never otherwise.
pub proof fn lemma_chunks_sent_in_order(events: Seq<Outbound>)
    ensures
        SenderView::start().transmitted(events) == chunks_before_stop(events),
        chunks_before_stop(events).is_prefix_of(chunks_supplied(events)),
        SenderView::start().closes(events) == if has_stop(events) {
            1nat
        } else {
            0nat
        },
    decreases events.len(),
{
    if events.len() > 0 {
        let rest = events.drop_first();
        match events[0] {
            Outbound::Chunk(bytes) => {
                lemma_chunks_sent_in_order(rest);
                let sent = chunks_before_stop(rest);
                let all = chunks_supplied(rest);
                assert((seq![bytes] + sent).is_prefix_of(seq![bytes] + all)) by {
                    assert forall|i: int| 0 <= i < (seq![bytes] + sent).len() implies (seq![bytes]
                        + sent)[i] == (seq![bytes] + all)[i] by {
                        if i > 0 {
                            assert(sent[i - 1] == all[i - 1]);
                        }
                    }
                }
                if has_stop(rest) {
                    let i = choose|i: int| 0 <= i < rest.len() && !(#[trigger] rest[i] is Chunk);
                    assert(events[i + 1] == rest[i]);
                } else if has_stop(events) {
                    let i = choose|i: int| 0 <= i < events.len() && !(#[trigger] events[i] is Chunk);
                    assert(rest[i - 1] == events[i]);
                }
            },
            _ => {
                lemma_closed_sends_nothing(SenderView::start().step(events[0]), rest);
                assert(!(events[0] is Chunk));
            },
        }
    } else {
        assert(!has_stop(events));
    }
}

/// In a session the chunks are transmitted in the exact order supplied, none
/// twice and none left out before the first write failure or the end of the
/// supply, whatever inbound messages lie between the sending events.
pub proof fn lemma_session_sends_in_order(events: Seq<Event>)
    ensures
        SessionView::start().transmitted(events) == chunks_before_stop(outbound_of(events)),
        chunks_before_stop(outbound_of(events)).is_prefix_of(
            chunks_supplied(outbound_of(events)),
        ),
{
    lemma_activities_are_independent(SessionView::start(), events);
    lemma_chunks_sent_in_order(outbound_of(events));
}

} // verus!
