//! Requests and replies as plain values.
//!
//! The library decides what is sent and what a reply means; sending and
//! reading are the caller's.

use crate::text::opt_text;
use vstd::prelude::*;
use vstd::string::*;

verus! {

/// How a request ended, as the caller observed it.
#[derive(Debug)]
pub enum HttpReply {
    /// The request could not be sent or no response arrived in time; with the
    /// reason reported.
    Unreachable(String),
    /// A response arrived. `body` is `None` where reading it failed.
    Response { status: u16, body: Option<String> },
}

pub enum HttpReplyView {
    Unreachable(Seq<char>),
    Response { status: u16, body: Option<Seq<char>> },
}

impl View for HttpReply {
    type V = HttpReplyView;

    open spec fn view(&self) -> HttpReplyView {
        match self {
            HttpReply::Unreachable(reason) => HttpReplyView::Unreachable(reason@),
            HttpReply::Response { status, body } => HttpReplyView::Response {
                status: *status,
                body: opt_text(*body),
            },
        }
    }
}

/// A status code counts as success from 200 to 299.
pub open spec fn status_is_success(status: u16) -> bool {
    200 <= status < 300
}

/// A status code with which the remote refuses the credentials: 401 or 403.
pub open spec fn status_is_unauthorized(status: u16) -> bool {
    status == 401 || status == 403
}

/// The text that stands for the body of a failed response: the body, or
/// `Unknown error` where it could not be read.
pub open spec fn error_text(body: Option<Seq<char>>) -> Seq<char> {
    match body {
        Some(text) => text,
        None => "Unknown error"@,
    }
}

/// Whether a status code counts as success.
pub fn is_success(status: u16) -> (res: bool)
    ensures
        res == status_is_success(status),
{
    200 <= status && status < 300
}

/// Whether a status code refuses the credentials.
pub fn is_unauthorized(status: u16) -> (res: bool)
    ensures
        res == status_is_unauthorized(status),
{
    status == 401 || status == 403
}

/// The text that stands for the body of a failed response.
pub fn error_text_of(body: &Option<String>) -> (res: String)
    ensures
        res@ == error_text(opt_text(*body)),
{
    match body {
        Some(text) => text.clone(),
        None => String::from_str("Unknown error"),
    }
}

/// One member of a JSON object whose value is a string.
#[derive(Debug)]
pub struct JsonField {
    pub name: String,
    pub value: String,
}

impl View for JsonField {
    type V = (Seq<char>, Seq<char>);

    open spec fn view(&self) -> (Seq<char>, Seq<char>) {
        (self.name@, self.value@)
    }
}

/// A `POST` of a JSON object of string members.
#[derive(Debug)]
pub struct JsonPost {
    pub url: String,
    /// The token of the `Authorization: Bearer` header, if one is sent.
    pub bearer: Option<String>,
    /// The members of the body, in order.
    pub fields: Vec<JsonField>,
    /// The longest the caller may wait for the response, in seconds; `None`
    /// where no bound is set.
    pub timeout_secs: Option<u64>,
}

pub struct JsonPostView {
    pub url: Seq<char>,
    pub bearer: Option<Seq<char>>,
    pub fields: Seq<(Seq<char>, Seq<char>)>,
    pub timeout_secs: Option<u64>,
}

impl View for JsonPost {
    type V = JsonPostView;

    open spec fn view(&self) -> JsonPostView {
        JsonPostView {
            url: self.url@,
            bearer: opt_text(self.bearer),
            fields: Seq::new(self.fields@.len(), |i: int| self.fields@[i]@),
            timeout_secs: self.timeout_secs,
        }
    }
}

/// A `POST` of a multipart form with one file part.
#[derive(Debug)]
pub struct Upload {
    pub url: String,
    pub part_name: String,
    pub file_name: String,
    pub mime: String,
    pub bytes: Vec<u8>,
    /// The longest the caller may wait for the response, in seconds.
    pub timeout_secs: u64,
}

pub struct UploadView {
    pub url: Seq<char>,
    pub part_name: Seq<char>,
    pub file_name: Seq<char>,
    pub mime: Seq<char>,
    pub bytes: Seq<u8>,
    pub timeout_secs: u64,
}

impl View for Upload {
    type V = UploadView;

    open spec fn view(&self) -> UploadView {
        UploadView {
            url: self.url@,
            part_name: self.part_name@,
            file_name: self.file_name@,
            mime: self.mime@,
            bytes: self.bytes@,
            timeout_secs: self.timeout_secs,
        }
    }
}

} // verus!
