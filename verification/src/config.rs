//! Configuration of the client and the shapes of the service's JSON replies.

use crate::json::{json_members, lookup, member_at, parse_document, JsonMember, Member};
use crate::text::{copy_opt, opt_text};
use vstd::prelude::*;
use vstd::string::*;

verus! {

/// Where the remote services are found.
#[derive(Debug)]
pub struct PlatformConfig {
    pub base_url: String,
    pub ws_transcribe_url: String,
    pub auth_endpoint: String,
    pub process_endpoint: String,
}

pub struct PlatformConfigView {
    pub base_url: Seq<char>,
    pub ws_transcribe_url: Seq<char>,
    pub auth_endpoint: Seq<char>,
    pub process_endpoint: Seq<char>,
}

impl View for PlatformConfig {
    type V = PlatformConfigView;

    open spec fn view(&self) -> PlatformConfigView {
        PlatformConfigView {
            base_url: self.base_url@,
            ws_transcribe_url: self.ws_transcribe_url@,
            auth_endpoint: self.auth_endpoint@,
            process_endpoint: self.process_endpoint@,
        }
    }
}

impl PlatformConfigView {
    /// The configuration of a service on the local machine.
    pub open spec fn local() -> PlatformConfigView {
        PlatformConfigView {
            base_url: "http://localhost:9000"@,
            ws_transcribe_url: "ws://localhost:9000/ws/asr"@,
            auth_endpoint: "/health"@,
            process_endpoint: "/end-dictation"@,
        }
    }
}

impl Default for PlatformConfig {
    fn default() -> (res: Self)
        ensures
            res@ == PlatformConfigView::local(),
    {
        PlatformConfig {
            base_url: String::from_str("http://localhost:9000"),
            ws_transcribe_url: String::from_str("ws://localhost:9000/ws/asr"),
            auth_endpoint: String::from_str("/health"),
            process_endpoint: String::from_str("/end-dictation"),
        }
    }
}

impl Clone for PlatformConfig {
    fn clone(&self) -> (res: Self)
        ensures
            res@ == self@,
    {
        PlatformConfig {
            base_url: self.base_url.clone(),
            ws_transcribe_url: self.ws_transcribe_url.clone(),
            auth_endpoint: self.auth_endpoint.clone(),
            process_endpoint: self.process_endpoint.clone(),
        }
    }
}

/// How audio is captured.
#[derive(Debug, Clone, Copy, PartialEq, Eq, Structural)]
pub struct AudioConfig {
    pub sample_rate: u32,
    pub channels: u16,
    pub chunk_ms: u32,
}

impl AudioConfig {
    /// Mono, 16 kHz, in chunks of a quarter of a second.
    pub open spec fn standard() -> AudioConfig {
        AudioConfig { sample_rate: 16000, channels: 1, chunk_ms: 250 }
    }
}

impl Default for AudioConfig {
    fn default() -> (res: Self)
        ensures
            res == AudioConfig::standard(),
    {
        AudioConfig { sample_rate: 16000, channels: 1, chunk_ms: 250 }
    }
}

/// The whole configuration of the client, with the identity it presents and the
/// session token once one was obtained.
#[derive(Debug)]
pub struct WeaveConfig {
    pub platform: PlatformConfig,
    pub audio: AudioConfig,
    pub auto_paste: bool,
    pub device_id: String,
    pub app_version: String,
    pub session_token: Option<String>,
}

pub struct WeaveConfigView {
    pub platform: PlatformConfigView,
    pub audio: AudioConfig,
    pub auto_paste: bool,
    pub device_id: Seq<char>,
    pub app_version: Seq<char>,
    pub session_token: Option<Seq<char>>,
}

impl View for WeaveConfig {
    type V = WeaveConfigView;

    open spec fn view(&self) -> WeaveConfigView {
        WeaveConfigView {
            platform: self.platform@,
            audio: self.audio,
            auto_paste: self.auto_paste,
            device_id: self.device_id@,
            app_version: self.app_version@,
            session_token: opt_text(self.session_token),
        }
    }
}

impl WeaveConfigView {
    /// The configuration a fresh installation starts with: local services,
    /// standard audio, pasting on, no session token.
    pub open spec fn initial() -> WeaveConfigView {
        WeaveConfigView {
            platform: PlatformConfigView::local(),
            audio: AudioConfig::standard(),
            auto_paste: true,
            device_id: "weave-desktop"@,
            app_version: "0.1.0"@,
            session_token: None,
        }
    }
}

impl Default for WeaveConfig {
    fn default() -> (res: Self)
        ensures
            res@ == WeaveConfigView::initial(),
    {
        WeaveConfig {
            platform: PlatformConfig::default(),
            audio: AudioConfig::default(),
            auto_paste: true,
            device_id: String::from_str("weave-desktop"),
            app_version: String::from_str("0.1.0"),
            session_token: None,
        }
    }
}

impl Clone for WeaveConfig {
    fn clone(&self) -> (res: Self)
        ensures
            res@ == self@,
    {
        WeaveConfig {
            platform: self.platform.clone(),
            audio: self.audio,
            auto_paste: self.auto_paste,
            device_id: self.device_id.clone(),
            app_version: self.app_version.clone(),
            session_token: copy_opt(&self.session_token),
        }
    }
}

/// The authentication service's reply: `{success, session_token?}`. Other
/// members, such as `endpoints`, are accepted and not read.
#[derive(Debug)]
pub struct AuthResponse {
    pub success: bool,
    pub session_token: Option<String>,
}

pub struct AuthResponseView {
    pub success: bool,
    pub session_token: Option<Seq<char>>,
}

impl View for AuthResponse {
    type V = AuthResponseView;

    open spec fn view(&self) -> AuthResponseView {
        AuthResponseView { success: self.success, session_token: opt_text(self.session_token) }
    }
}

impl Clone for AuthResponse {
    fn clone(&self) -> (res: Self)
        ensures
            res@ == self@,
    {
        AuthResponse { success: self.success, session_token: copy_opt(&self.session_token) }
    }
}

/// The view of an optional reply.
pub open spec fn opt_response(response: Option<AuthResponse>) -> Option<AuthResponseView> {
    match response {
        Some(r) => Some(r@),
        None => None,
    }
}

impl AuthResponseView {
    /// The reply that two members make: `success` must be a boolean, and
    /// `session_token` a string, `null` or absent.
    pub open spec fn of_members(success: Member, session_token: Member) -> Option<
        AuthResponseView,
    > {
        match success {
            Member::Flag(success) => match session_token {
                Member::Text(t) => Some(AuthResponseView { success, session_token: Some(t) }),
                Member::Absent => Some(AuthResponseView { success, session_token: None }),
                Member::Null => Some(AuthResponseView { success, session_token: None }),
                _ => None,
            },
            _ => None,
        }
    }
}

impl AuthResponse {
    /// The reply that a body holds: the body must be a JSON document whose
    /// members `success` and `session_token` make a reply.
    pub open spec fn decoded(body: Seq<char>) -> Option<AuthResponseView> {
        match json_members(body) {
            Some(members) => AuthResponseView::of_members(
                member_at(members, "success"@),
                member_at(members, "session_token"@),
            ),
            None => None,
        }
    }

    /// Makes a reply of the members `success` and `session_token` of a
    /// document.
    pub fn from_members(success: JsonMember, session_token: JsonMember) -> (res: Option<
        AuthResponse,
    >)
        ensures
            opt_response(res) == AuthResponseView::of_members(success@, session_token@),
    {
        let success = match success {
            JsonMember::Flag(b) => b,
            _ => {
                return None;
            },
        };
        match session_token {
            JsonMember::Text(t) => Some(AuthResponse { success, session_token: Some(t) }),
            JsonMember::Absent => Some(AuthResponse { success, session_token: None }),
            JsonMember::Null => Some(AuthResponse { success, session_token: None }),
            _ => None,
        }
    }

    /// Decodes a reply body.
    pub fn decode(body: &str) -> (res: Option<AuthResponse>)
        ensures
            opt_response(res) == Self::decoded(body@),
    {
        match parse_document(body) {
            Ok(doc) => {
                let success = lookup(&doc, "success");
                let session_token = lookup(&doc, "session_token");
                AuthResponse::from_members(success, session_token)
            },
            Err(_) => None,
        }
    }
}

/// The text that a member holds, if it is a string.
pub open spec fn member_text(member: Member) -> Option<Seq<char>> {
    match member {
        Member::Text(t) => Some(t),
        _ => None,
    }
}

/// The cleanup service's reply to a transcript: `{cleaned_text}`, or
/// `{processedText}` as services of an earlier form send it.
#[derive(Debug)]
pub struct ProcessResponse {
    pub processed_text: String,
}

impl Clone for ProcessResponse {
    fn clone(&self) -> (res: Self)
        ensures
            res.processed_text@ == self.processed_text@,
    {
        ProcessResponse { processed_text: self.processed_text.clone() }
    }
}

impl ProcessResponse {
    /// The processed text that two members make: the member `cleaned_text`
    /// where that is a string, or else the member `processedText` where that
    /// is one.
    pub open spec fn of_members(cleaned_text: Member, processed_text: Member) -> Option<
        Seq<char>,
    > {
        match cleaned_text {
            Member::Text(t) => Some(t),
            _ => member_text(processed_text),
        }
    }

    /// The processed text that a body holds: the body must be a JSON document
    /// whose members `cleaned_text` and `processedText` make one.
    pub open spec fn decoded(body: Seq<char>) -> Option<Seq<char>> {
        match json_members(body) {
            Some(members) => Self::of_members(
                member_at(members, "cleaned_text"@),
                member_at(members, "processedText"@),
            ),
            None => None,
        }
    }

    /// Makes a reply of the members `cleaned_text` and `processedText` of a
    /// document.
    pub fn from_members(cleaned_text: JsonMember, processed_text: JsonMember) -> (res: Option<
        ProcessResponse,
    >)
        ensures
            match res {
                Some(r) => Self::of_members(cleaned_text@, processed_text@) == Some(
                    r.processed_text@,
                ),
                None => Self::of_members(cleaned_text@, processed_text@) is None,
            },
    {
        match cleaned_text {
            JsonMember::Text(t) => Some(ProcessResponse { processed_text: t }),
            _ => match processed_text {
                JsonMember::Text(t) => Some(ProcessResponse { processed_text: t }),
                _ => None,
            },
        }
    }

    /// Decodes a reply body.
    pub fn decode(body: &str) -> (res: Option<ProcessResponse>)
        ensures
            match res {
                Some(r) => Self::decoded(body@) == Some(r.processed_text@),
                None => Self::decoded(body@) is None,
            },
    {
        match parse_document(body) {
            Ok(doc) => {
                let cleaned_text = lookup(&doc, "cleaned_text");
                let processed_text = lookup(&doc, "processedText");
                ProcessResponse::from_members(cleaned_text, processed_text)
            },
            Err(_) => None,
        }
    }
}

/// One transcript fragment as the streaming service sends it: `{text}`.
#[derive(Debug)]
pub struct TranscriptionMessage {
    pub text: String,
}

impl Clone for TranscriptionMessage {
    fn clone(&self) -> (res: Self)
        ensures
            res.text@ == self.text@,
    {
        TranscriptionMessage { text: self.text.clone() }
    }
}

impl TranscriptionMessage {
    /// The fragment text that a frame holds: the string under `text` of a
    /// JSON document.
    pub open spec fn decoded(frame: Seq<char>) -> Option<Seq<char>> {
        match json_members(frame) {
            Some(members) => member_text(member_at(members, "text"@)),
            None => None,
        }
    }

    /// Makes a fragment of the member `text` of a document.
    pub fn from_member(text: JsonMember) -> (res: Option<TranscriptionMessage>)
        ensures
            match res {
                Some(m) => member_text(text@) == Some(m.text@),
                None => member_text(text@) is None,
            },
    {
        match text {
            JsonMember::Text(t) => Some(TranscriptionMessage { text: t }),
            _ => None,
        }
    }

    /// Decodes a text frame.
    pub fn decode(frame: &str) -> (res: Option<TranscriptionMessage>)
        ensures
            match res {
                Some(m) => Self::decoded(frame@) == Some(m.text@),
                None => Self::decoded(frame@) is None,
            },
    {
        match parse_document(frame) {
            Ok(doc) => TranscriptionMessage::from_member(lookup(&doc, "text")),
            Err(_) => None,
        }
    }
}

} // verus!
