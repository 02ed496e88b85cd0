//! What a handler hands back: a status, a content type and a body.

use vstd::prelude::*;

verus! {

/// The content types that the service sends.
#[derive(Clone, Copy, Debug, PartialEq, Eq, Structural)]
pub enum ContentType {
    Json,
    Html,
}

impl ContentType {
    /// The value of the `Content-Type` header.
    pub open spec fn header_text(self) -> Seq<char> {
        match self {
            ContentType::Json => "application/json"@,
            ContentType::Html => "text/html; charset=utf-8"@,
        }
    }

    /// The value of the `Content-Type` header.
    pub fn header_value(&self) -> (out: &'static str)
        ensures
            out@ == self.header_text(),
    {
        match self {
            ContentType::Json => "application/json",
            ContentType::Html => "text/html; charset=utf-8",
        }
    }
}

/// Status of a reply that was rendered.
pub const STATUS_OK: u16 = 200;

/// Status of a reply to a request that the caller got wrong.
pub const STATUS_BAD_REQUEST: u16 = 400;

/// Status of a reply after a failure on the server's side.
pub const STATUS_INTERNAL_SERVER_ERROR: u16 = 500;

/// A reply, ready to be sent. An error reply carries no content type.
#[derive(Debug, PartialEq, Eq)]
pub struct Response {
    pub status: u16,
    pub content_type: Option<ContentType>,
    pub body: String,
}

/// The mathematical form of a [`Response`].
pub struct ResponseModel {
    pub status: u16,
    pub content_type: Option<ContentType>,
    pub body: Seq<char>,
}

impl View for Response {
    type V = ResponseModel;

    open spec fn view(&self) -> ResponseModel {
        ResponseModel { status: self.status, content_type: self.content_type, body: self.body@ }
    }
}

} // verus!
