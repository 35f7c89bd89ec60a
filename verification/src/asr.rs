//! The transcription service as the client sees it: authentication, the start
//! of a streaming session, and the processing of a finished transcript.

use crate::config::{
    opt_response, AuthResponse, AuthResponseView, PlatformConfig, PlatformConfigView,
    ProcessResponse,
};
use crate::http::{
    error_text, error_text_of, is_success, is_unauthorized, status_is_success,
    status_is_unauthorized, HttpReply, HttpReplyView, JsonField, JsonPost, JsonPostView,
};
use crate::session::{PendingSession, SessionError, SessionErrorView};
use crate::text::{joined, opt_text};
use vstd::prelude::*;
use vstd::string::*;

verus! {

/// The identity that a client presents to the authentication service.
#[derive(Debug)]
pub struct AuthRequest {
    pub device_id: String,
    pub app_version: String,
}

pub struct AuthRequestView {
    pub device_id: Seq<char>,
    pub app_version: Seq<char>,
}

impl View for AuthRequest {
    type V = AuthRequestView;

    open spec fn view(&self) -> AuthRequestView {
        AuthRequestView { device_id: self.device_id@, app_version: self.app_version@ }
    }
}

impl Clone for AuthRequest {
    fn clone(&self) -> (res: Self)
        ensures
            res@ == self@,
    {
        AuthRequest { device_id: self.device_id.clone(), app_version: self.app_version.clone() }
    }
}

impl AuthRequestView {
    /// The members of the request body: `device_id`, then `app_version`.
    pub open spec fn fields(self) -> Seq<(Seq<char>, Seq<char>)> {
        seq![("device_id"@, self.device_id), ("app_version"@, self.app_version)]
    }
}

impl AuthRequest {
    /// The members of the request body.
    pub fn fields(&self) -> (res: Vec<JsonField>)
        ensures
            Seq::new(res@.len(), |i: int| res@[i]@) == self@.fields(),
    {
        let mut fields: Vec<JsonField> = Vec::new();
        fields.push(
            JsonField { name: String::from_str("device_id"), value: self.device_id.clone() },
        );
        fields.push(
            JsonField { name: String::from_str("app_version"), value: self.app_version.clone() },
        );
        assert(Seq::new(fields@.len(), |i: int| fields@[i]@) =~= self@.fields());
        fields
    }
}

/// Why the remote did not grant a session although it answered in due form.
#[derive(Debug, Clone, Copy, PartialEq, Eq, Structural)]
pub enum Rejection {
    /// The reply reports failure.
    Denied,
    /// The reply reports success and holds no token.
    NoToken,
}

/// Why authentication failed.
#[derive(Debug)]
pub enum AuthError {
    /// The request could not be sent or the remote was not reached.
    Transport(String),
    /// The remote answered with a status that is no success; with the raw
    /// body of the response.
    Service { status: u16, body: String },
    /// The response was a success and its body has not the expected shape.
    Protocol,
    /// The remote did not grant a session.
    Rejected(Rejection),
}

pub enum AuthErrorView {
    Transport(Seq<char>),
    Service { status: u16, body: Seq<char> },
    Protocol,
    Rejected(Rejection),
}

impl View for AuthError {
    type V = AuthErrorView;

    open spec fn view(&self) -> AuthErrorView {
        match self {
            AuthError::Transport(reason) => AuthErrorView::Transport(reason@),
            AuthError::Service { status, body } => AuthErrorView::Service {
                status: *status,
                body: body@,
            },
            AuthError::Protocol => AuthErrorView::Protocol,
            AuthError::Rejected(why) => AuthErrorView::Rejected(*why),
        }
    }
}

impl AuthErrorView {
    pub open spec fn message(self) -> Seq<char> {
        match self {
            AuthErrorView::Transport(reason) => "Failed to send auth request: "@ + reason,
            AuthErrorView::Service { status, body } => "Auth API error: "@ + body,
            AuthErrorView::Protocol => "Failed to parse auth response"@,
            AuthErrorView::Rejected(Rejection::Denied) => "Authentication failed"@,
            AuthErrorView::Rejected(Rejection::NoToken) => "No session token in response"@,
        }
    }
}

impl AuthError {
    /// The error as a line of text.
    pub fn message(&self) -> (res: String)
        ensures
            res@ == self@.message(),
    {
        match self {
            AuthError::Transport(reason) => joined(
                "Failed to send auth request: ",
                reason.as_str(),
            ),
            AuthError::Service { status, body } => joined("Auth API error: ", body.as_str()),
            AuthError::Protocol => String::from_str("Failed to parse auth response"),
            AuthError::Rejected(Rejection::Denied) => String::from_str("Authentication failed"),
            AuthError::Rejected(Rejection::NoToken) => String::from_str(
                "No session token in response",
            ),
        }
    }
}

/// What a decoded reply grants: the token of a reply that reports success and
/// holds one. A body that did not decode is a protocol error; a reply that
/// reports failure, or success without a token, is a rejection.
pub open spec fn grant(response: Option<AuthResponseView>) -> Result<Seq<char>, AuthErrorView> {
    match response {
        None => Err(AuthErrorView::Protocol),
        Some(response) => if !response.success {
            Err(AuthErrorView::Rejected(Rejection::Denied))
        } else {
            match response.session_token {
                Some(token) => Ok(token),
                None => Err(AuthErrorView::Rejected(Rejection::NoToken)),
            }
        },
    }
}

/// What a reply to the authentication request means: the session token, or
/// the reason why there is none.
pub open spec fn auth_outcome(reply: HttpReplyView) -> Result<Seq<char>, AuthErrorView> {
    match reply {
        HttpReplyView::Unreachable(reason) => Err(AuthErrorView::Transport(reason)),
        HttpReplyView::Response { status, body } => if !status_is_success(status) {
            Err(AuthErrorView::Service { status, body: error_text(body) })
        } else {
            match body {
                None => grant(None),
                Some(text) => grant(AuthResponse::decoded(text)),
            }
        },
    }
}

/// The `session_token` that the body of a response holds, if it holds one.
pub open spec fn reply_token(reply: HttpReplyView) -> Option<Seq<char>> {
    match reply {
        HttpReplyView::Response { status, body: Some(text) } => match AuthResponse::decoded(text) {
            Some(response) => response.session_token,
            None => None,
        },
        _ => None,
    }
}

/// A successful authentication returns the `session_token` of the reply,
/// exactly as the reply holds it. Where the reply's token is not the empty
/// string, the token returned is not empty.
pub proof fn lemma_token_is_the_replys(reply: HttpReplyView)
    requires
        auth_outcome(reply) is Ok,
        reply_token(reply) != Some(Seq::<char>::empty()),
    ensures
        reply_token(reply) == Some(auth_outcome(reply)->Ok_0),
        auth_outcome(reply)->Ok_0.len() > 0,
{
    let token = auth_outcome(reply)->Ok_0;
    if token.len() == 0 {
        assert(token =~= Seq::<char>::empty());
    }
}

/// Why a transcript could not be processed.
#[derive(Debug)]
pub enum ProcessError {
    /// No session token is held.
    NotAuthenticated,
    /// The request could not be sent or the remote was not reached.
    Transport(String),
    /// The remote refused the session token, with status 401 or 403.
    Unauthorized { status: u16, body: String },
    /// The remote answered with another status that is no success.
    Service { status: u16, body: String },
    /// The response was a success and its body has not the expected shape.
    Protocol,
}

pub enum ProcessErrorView {
    NotAuthenticated,
    Transport(Seq<char>),
    Unauthorized { status: u16, body: Seq<char> },
    Service { status: u16, body: Seq<char> },
    Protocol,
}

impl View for ProcessError {
    type V = ProcessErrorView;

    open spec fn view(&self) -> ProcessErrorView {
        match self {
            ProcessError::NotAuthenticated => ProcessErrorView::NotAuthenticated,
            ProcessError::Transport(reason) => ProcessErrorView::Transport(reason@),
            ProcessError::Unauthorized { status, body } => ProcessErrorView::Unauthorized {
                status: *status,
                body: body@,
            },
            ProcessError::Service { status, body } => ProcessErrorView::Service {
                status: *status,
                body: body@,
            },
            ProcessError::Protocol => ProcessErrorView::Protocol,
        }
    }
}

impl ProcessErrorView {
    pub open spec fn message(self) -> Seq<char> {
        match self {
            ProcessErrorView::NotAuthenticated => "Not authenticated"@,
            ProcessErrorView::Transport(reason) => "Failed to send process request: "@ + reason,
            ProcessErrorView::Unauthorized { status, body } => "Process API error: "@ + body,
            ProcessErrorView::Service { status, body } => "Process API error: "@ + body,
            ProcessErrorView::Protocol => "Failed to parse process response"@,
        }
    }
}

impl ProcessError {
    /// The error as a line of text.
    pub fn message(&self) -> (res: String)
        ensures
            res@ == self@.message(),
    {
        match self {
            ProcessError::NotAuthenticated => String::from_str("Not authenticated"),
            ProcessError::Transport(reason) => joined(
                "Failed to send process request: ",
                reason.as_str(),
            ),
            ProcessError::Unauthorized { status, body } => joined(
                "Process API error: ",
                body.as_str(),
            ),
            ProcessError::Service { status, body } => joined("Process API error: ", body.as_str()),
            ProcessError::Protocol => String::from_str("Failed to parse process response"),
        }
    }
}

/// What a reply to the processing request means: the processed text that the
/// body holds, under `cleaned_text` or else under `processedText`, or the
/// reason why there is none.
pub open spec fn process_outcome(reply: HttpReplyView) -> Result<Seq<char>, ProcessErrorView> {
    match reply {
        HttpReplyView::Unreachable(reason) => Err(ProcessErrorView::Transport(reason)),
        HttpReplyView::Response { status, body } => if status_is_unauthorized(status) {
            Err(ProcessErrorView::Unauthorized { status, body: error_text(body) })
        } else if !status_is_success(status) {
            Err(ProcessErrorView::Service { status, body: error_text(body) })
        } else {
            match body {
                None => Err(ProcessErrorView::Protocol),
                Some(text) => match ProcessResponse::decoded(text) {
                    None => Err(ProcessErrorView::Protocol),
                    Some(processed) => Ok(processed),
                },
            }
        },
    }
}

/// State of the service: its configuration and the session token, if one is
/// held.
pub struct ServiceView {
    pub config: PlatformConfigView,
    pub session_token: Option<Seq<char>>,
}

/// The client's side of the transcription service.
#[derive(Debug)]
pub struct StreamingAsrService {
    config: PlatformConfig,
    session_token: Option<String>,
}

impl View for StreamingAsrService {
    type V = ServiceView;

    closed spec fn view(&self) -> ServiceView {
        ServiceView { config: self.config@, session_token: opt_text(self.session_token) }
    }
}

impl StreamingAsrService {
    /// A service that holds no session token.
    pub fn new(config: PlatformConfig) -> (res: Self)
        ensures
            res@ == (ServiceView { config: config@, session_token: None }),
    {
        StreamingAsrService { config, session_token: None }
    }

    /// A copy of the session token, if one is held.
    pub fn session_token(&self) -> (res: Option<String>)
        ensures
            opt_text(res) == self@.session_token,
    {
        crate::text::copy_opt(&self.session_token)
    }

    /// Begins an authentication: the token held so far is given up, and the
    /// request to send is returned. It posts the identity to the
    /// authentication endpoint.
    pub fn auth_request(&mut self, device_id: &str, app_version: &str) -> (res: JsonPost)
        ensures
            final(self)@ == (ServiceView { session_token: None, ..old(self)@ }),
            res@ == (JsonPostView {
                url: old(self)@.config.base_url + old(self)@.config.auth_endpoint,
                bearer: None,
                fields: (AuthRequestView { device_id: device_id@, app_version: app_version@ }).fields(),
                timeout_secs: None,
            }),
    {
        self.session_token = None;
        let request = AuthRequest {
            device_id: String::from_str(device_id),
            app_version: String::from_str(app_version),
        };
        JsonPost {
            url: joined(self.config.base_url.as_str(), self.config.auth_endpoint.as_str()),
            bearer: None,
            fields: request.fields(),
            timeout_secs: None,
        }
    }

    /// Ends an authentication with the decoded reply, `None` where the body
    /// did not decode. On success the token of the reply is returned and held
    /// from now on; on any failure no token is held.
    pub fn accept(&mut self, response: Option<AuthResponse>) -> (res: Result<String, AuthError>)
        ensures
            match res {
                Ok(token) => grant(opt_response(response)) == Ok::<Seq<char>, AuthErrorView>(
                    token@,
                ) && final(self)@.session_token == Some(token@),
                Err(e) => grant(opt_response(response)) == Err::<Seq<char>, AuthErrorView>(e@)
                    && final(self)@.session_token is None,
            },
            final(self)@.config == old(self)@.config,
    {
        self.session_token = None;
        let response = match response {
            Some(response) => response,
            None => {
                return Err(AuthError::Protocol);
            },
        };
        if !response.success {
            return Err(AuthError::Rejected(Rejection::Denied));
        }
        match response.session_token {
            Some(token) => {
                self.session_token = Some(token.clone());
                Ok(token)
            },
            None => Err(AuthError::Rejected(Rejection::NoToken)),
        }
    }

    /// Ends an authentication with the reply to its request. On success the
    /// token of the reply is returned and held from now on; on any failure no
    /// token is held. The request is not repeated.
    pub fn authenticate(&mut self, reply: &HttpReply) -> (res: Result<String, AuthError>)
        ensures
            match res {
                Ok(token) => auth_outcome(reply@) == Ok::<Seq<char>, AuthErrorView>(token@)
                    && final(self)@.session_token == Some(token@),
                Err(e) => auth_outcome(reply@) == Err::<Seq<char>, AuthErrorView>(e@)
                    && final(self)@.session_token is None,
            },
            final(self)@.config == old(self)@.config,
    {
        self.session_token = None;
        match reply {
            HttpReply::Unreachable(reason) => Err(AuthError::Transport(reason.clone())),
            HttpReply::Response { status, body } => {
                if !is_success(*status) {
                    return Err(AuthError::Service { status: *status, body: error_text_of(body) });
                }
                match body {
                    Some(text) => self.accept(AuthResponse::decode(text.as_str())),
                    None => self.accept(None),
                }
            },
        }
    }

    /// Authorises a streaming session: with a token held, the session waits
    /// for its connection to the transcription endpoint, with the token as the
    /// `token` parameter of the address; without one it fails.
    pub fn start_streaming_transcription(&self) -> (res: Result<PendingSession, SessionError>)
        ensures
            match self@.session_token {
                Some(token) => res is Ok && res->Ok_0@ == self@.config.ws_transcribe_url
                    + "?token="@ + token,
                None => res is Err && res->Err_0@ == SessionErrorView::NotAuthenticated,
            },
    {
        match &self.session_token {
            Some(token) => Ok(
                PendingSession::new(self.config.ws_transcribe_url.as_str(), token.as_str()),
            ),
            None => Err(SessionError::NotAuthenticated),
        }
    }

    /// The request that asks the remote to process a transcript: it posts
    /// `{transcript}` to the processing endpoint, with the session token as
    /// bearer. Without a token there is no request.
    pub fn process_request(&self, transcription: &str) -> (res: Result<JsonPost, ProcessError>)
        ensures
            match self@.session_token {
                Some(token) => res is Ok && res->Ok_0@ == (JsonPostView {
                    url: self@.config.base_url + self@.config.process_endpoint,
                    bearer: Some(token),
                    fields: seq![("transcript"@, transcription@)],
                    timeout_secs: None,
                }),
                None => res is Err && res->Err_0@ == ProcessErrorView::NotAuthenticated,
            },
    {
        match &self.session_token {
            Some(token) => {
                let mut fields: Vec<JsonField> = Vec::new();
                fields.push(
                    JsonField {
                        name: String::from_str("transcript"),
                        value: String::from_str(transcription),
                    },
                );
                assert(Seq::new(fields@.len(), |i: int| fields@[i]@) =~= seq![
                    ("transcript"@, transcription@),
                ]);
                Ok(
                    JsonPost {
                        url: joined(
                            self.config.base_url.as_str(),
                            self.config.process_endpoint.as_str(),
                        ),
                        bearer: Some(token.clone()),
                        fields,
                        timeout_secs: None,
                    },
                )
            },
            None => Err(ProcessError::NotAuthenticated),
        }
    }

    /// Reads the reply to a processing request: the processed text, or the
    /// reason why there is none. Without a token the reply is not looked at.
    pub fn process_transcript(&self, reply: &HttpReply) -> (res: Result<String, ProcessError>)
        ensures
            match res {
                Ok(text) => self@.session_token is Some && process_outcome(reply@) == Ok::<
                    Seq<char>,
                    ProcessErrorView,
                >(text@),
                Err(e) => if self@.session_token is None {
                    e@ == ProcessErrorView::NotAuthenticated
                } else {
                    process_outcome(reply@) == Err::<Seq<char>, ProcessErrorView>(e@)
                },
            },
    {
        if self.session_token.is_none() {
            return Err(ProcessError::NotAuthenticated);
        }
        match reply {
            HttpReply::Unreachable(reason) => Err(ProcessError::Transport(reason.clone())),
            HttpReply::Response { status, body } => {
                if is_unauthorized(*status) {
                    return Err(
                        ProcessError::Unauthorized { status: *status, body: error_text_of(body) },
                    );
                }
                if !is_success(*status) {
                    return Err(
                        ProcessError::Service { status: *status, body: error_text_of(body) },
                    );
                }
                let text = match body {
                    Some(text) => text,
                    None => {
                        return Err(ProcessError::Protocol);
                    },
                };
                match ProcessResponse::decode(text.as_str()) {
                    Some(response) => Ok(response.processed_text),
                    None => Err(ProcessError::Protocol),
                }
            },
        }
    }
}

} // verus!
