//! The state of the application between commands: whether a recording runs,
//! the configuration, and the authenticated service.
//!
//! At most one recording runs at a time. Each command is a method that
//! decides and updates the state; what it asks of the outside (a request to
//! send, a text to copy) it returns.

use crate::asr::{
    auth_outcome, AuthError, AuthErrorView, AuthRequestView, ServiceView, StreamingAsrService,
};
use crate::config::{WeaveConfig, WeaveConfigView};
use crate::http::{HttpReply, JsonPost, JsonPostView};
use vstd::prelude::*;
use vstd::string::*;

verus! {

/// How many audio chunks may wait between the recorder and the session.
pub const AUDIO_QUEUE_CAPACITY: usize = 100;

/// Why a recording command was refused.
#[derive(Debug, Clone, Copy, PartialEq, Eq, Structural)]
pub enum RecordingError {
    /// A recording is running already.
    AlreadyRecording,
    /// No recording is running.
    NotRecording,
}

impl RecordingError {
    pub open spec fn message_text(self) -> Seq<char> {
        match self {
            RecordingError::AlreadyRecording => "Already recording"@,
            RecordingError::NotRecording => "Not recording"@,
        }
    }

    /// The error as a line of text.
    pub fn message(&self) -> (res: String)
        ensures
            res@ == self.message_text(),
    {
        match self {
            RecordingError::AlreadyRecording => String::from_str("Already recording"),
            RecordingError::NotRecording => String::from_str("Not recording"),
        }
    }
}

/// What the caller sets up when a recording starts.
#[derive(Debug, Clone, Copy, PartialEq, Eq, Structural)]
pub struct CapturePlan {
    /// The capacity of the queue of audio chunks.
    pub queue_capacity: usize,
    /// The sample rate asked of the recorder.
    pub sample_rate: u32,
}

/// What the caller does when a recording has stopped.
#[derive(Debug)]
pub struct StopPlan {
    /// The text to hand to the user.
    pub text: String,
    /// Whether the text goes to the clipboard as well.
    pub copy_to_clipboard: bool,
}

/// The text that a stopped recording hands to the user.
pub open spec fn stopped_text() -> Seq<char> {
    "Recording stopped. Transcription processing..."@
}

pub struct AppStateView {
    pub recording: bool,
    pub config: WeaveConfigView,
    pub asr_service: Option<ServiceView>,
}

impl AppStateView {
    /// The request that an authentication sends: the configured identity,
    /// posted to the authentication endpoint.
    pub open spec fn auth_request(self) -> JsonPostView {
        JsonPostView {
            url: self.config.platform.base_url + self.config.platform.auth_endpoint,
            bearer: None,
            fields: (AuthRequestView {
                device_id: self.config.device_id,
                app_version: self.config.app_version,
            }).fields(),
            timeout_secs: None,
        }
    }

    /// The state with no token held.
    pub open spec fn signed_out(self) -> AppStateView {
        AppStateView {
            config: WeaveConfigView { session_token: None, ..self.config },
            asr_service: None,
            ..self
        }
    }

    /// The state once an authentication has ended with `outcome`: on success
    /// the token is kept in the configuration and in a fresh service; on
    /// failure neither holds one.
    pub open spec fn authenticated(self, outcome: Result<Seq<char>, AuthErrorView>) -> AppStateView {
        match outcome {
            Ok(token) => AppStateView {
                config: WeaveConfigView { session_token: Some(token), ..self.config },
                asr_service: Some(
                    ServiceView { config: self.config.platform, session_token: Some(token) },
                ),
                ..self
            },
            Err(_) => self.signed_out(),
        }
    }
}

/// The state of the application.
#[derive(Debug)]
pub struct AppState {
    recording: bool,
    config: WeaveConfig,
    asr_service: Option<StreamingAsrService>,
}

impl View for AppState {
    type V = AppStateView;

    closed spec fn view(&self) -> AppStateView {
        AppStateView {
            recording: self.recording,
            config: self.config@,
            asr_service: match self.asr_service {
                Some(service) => Some(service@),
                None => None,
            },
        }
    }
}

impl AppState {
    /// The state at start-up: nothing is recorded, nobody is authenticated.
    pub fn new() -> (res: Self)
        ensures
            res@ == (AppStateView {
                recording: false,
                config: WeaveConfigView::initial(),
                asr_service: None,
            }),
    {
        AppState { recording: false, config: WeaveConfig::default(), asr_service: None }
    }

    /// Begins an authentication: the token held so far is given up, and the
    /// request to send is returned.
    pub fn auth_request(&mut self) -> (res: JsonPost)
        ensures
            final(self)@ == old(self)@.signed_out(),
            res@ == old(self)@.auth_request(),
    {
        let mut service = StreamingAsrService::new(self.config.platform.clone());
        let request = service.auth_request(
            self.config.device_id.as_str(),
            self.config.app_version.as_str(),
        );
        self.config.session_token = None;
        self.asr_service = None;
        request
    }

    /// Ends an authentication with the reply to its request.
    pub fn authenticate(&mut self, reply: &HttpReply) -> (res: Result<String, AuthError>)
        ensures
            match res {
                Ok(token) => auth_outcome(reply@) == Ok::<Seq<char>, AuthErrorView>(token@),
                Err(e) => auth_outcome(reply@) == Err::<Seq<char>, AuthErrorView>(e@),
            },
            final(self)@ == old(self)@.authenticated(auth_outcome(reply@)),
    {
        let mut service = StreamingAsrService::new(self.config.platform.clone());
        match service.authenticate(reply) {
            Ok(token) => {
                self.config.session_token = Some(token.clone());
                self.asr_service = Some(service);
                Ok(token)
            },
            Err(e) => {
                self.config.session_token = None;
                self.asr_service = None;
                Err(e)
            },
        }
    }

    /// The authenticated service, if there is one.
    pub fn asr_service(&self) -> (res: Option<&StreamingAsrService>)
        ensures
            match res {
                Some(service) => self@.asr_service == Some(service@),
                None => self@.asr_service is None,
            },
    {
        self.asr_service.as_ref()
    }

    /// Starts a recording, unless one is running.
    pub fn start_recording(&mut self) -> (res: Result<CapturePlan, RecordingError>)
        ensures
            match res {
                Ok(plan) => !old(self)@.recording && final(self)@ == (AppStateView {
                    recording: true,
                    ..old(self)@
                }) && plan == (CapturePlan {
                    queue_capacity: AUDIO_QUEUE_CAPACITY,
                    sample_rate: old(self)@.config.audio.sample_rate,
                }),
                Err(e) => old(self)@.recording && final(self)@ == old(self)@ && e
                    == RecordingError::AlreadyRecording,
            },
    {
        if self.recording {
            return Err(RecordingError::AlreadyRecording);
        }
        self.recording = true;
        Ok(
            CapturePlan {
                queue_capacity: AUDIO_QUEUE_CAPACITY,
                sample_rate: self.config.audio.sample_rate,
            },
        )
    }

    /// Stops the recording, if one is running. The text goes to the clipboard
    /// where the configuration asks for pasting.
    pub fn stop_recording(&mut self) -> (res: Result<StopPlan, RecordingError>)
        ensures
            match res {
                Ok(plan) => old(self)@.recording && final(self)@ == (AppStateView {
                    recording: false,
                    ..old(self)@
                }) && plan.text@ == stopped_text() && plan.copy_to_clipboard
                    == old(self)@.config.auto_paste,
                Err(e) => !old(self)@.recording && final(self)@ == old(self)@ && e
                    == RecordingError::NotRecording,
            },
    {
        if !self.recording {
            return Err(RecordingError::NotRecording);
        }
        self.recording = false;
        Ok(
            StopPlan {
                text: String::from_str("Recording stopped. Transcription processing..."),
                copy_to_clipboard: self.config.auto_paste,
            },
        )
    }

    /// Whether a recording is running.
    pub fn is_recording(&self) -> (res: bool)
        ensures
            res == self@.recording,
    {
        self.recording
    }

    /// Whether a session token is held.
    pub fn is_authenticated(&self) -> (res: bool)
        ensures
            res == self@.config.session_token is Some,
    {
        self.config.session_token.is_some()
    }

    /// A copy of the configuration.
    pub fn get_config(&self) -> (res: WeaveConfig)
        ensures
            res@ == self@.config,
    {
        self.config.clone()
    }

    /// Replaces the configuration.
    pub fn update_config(&mut self, new_config: WeaveConfig)
        ensures
            final(self)@ == (AppStateView { config: new_config@, ..old(self)@ }),
    {
        self.config = new_config;
    }
}

} // verus!
