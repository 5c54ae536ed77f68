//! What the upload endpoint answers: a status and a plain-text body.

use vstd::prelude::*;
use vstd::string::*;

verus! {

/// Status of an answer to a request that was served in full.
pub const STATUS_OK: u16 = 200;

/// Status of an answer to a request with a part that names no file.
pub const STATUS_BAD_REQUEST: u16 = 400;

/// Status of an answer to a request that failed on the server's side.
pub const STATUS_SERVER_ERROR: u16 = 500;

/// An answer to an upload request.
#[derive(Debug, Clone, PartialEq, Eq)]
pub struct Response {
    pub status: u16,
    pub body: String,
}

/// An answer as contracts see it.
pub struct ResponseModel {
    pub status: u16,
    pub body: Seq<char>,
}

impl View for Response {
    type V = ResponseModel;

    open spec fn view(&self) -> ResponseModel {
        ResponseModel { status: self.status, body: self.body@ }
    }
}

/// The sentence that reports where a file was stored.
pub open spec fn confirmation_text(path: Seq<char>) -> Seq<char> {
    "File uploaded to '"@ + path + "'"@
}

/// The body sent when a part names no file.
pub open spec fn missing_filename_text() -> Seq<char> {
    "No filename provided"@
}

/// The body sent when the server fails, with the reason it gives.
pub open spec fn server_error_text(message: Seq<char>) -> Seq<char> {
    "Server error: "@ + message
}

/// The answer to a request served in full, `path` being the last one written.
pub open spec fn uploaded(path: Seq<char>) -> ResponseModel {
    ResponseModel { status: 200, body: confirmation_text(path) }
}

/// The answer to a request with a part that names no file.
pub open spec fn missing_filename() -> ResponseModel {
    ResponseModel { status: 400, body: missing_filename_text() }
}

/// The answer to a request that failed on the server's side.
pub open spec fn server_error(message: Seq<char>) -> ResponseModel {
    ResponseModel { status: 500, body: server_error_text(message) }
}

/// Writes the sentence that reports where a file was stored.
pub fn confirmation(path: &str) -> (text: String)
    ensures
        text@ == confirmation_text(path@),
{
    let mut text = String::from_str("File uploaded to '");
    text.append(path);
    text.append("'");
    text
}

impl Response {
    /// The answer to a request served in full.
    pub fn uploaded(path: &str) -> (r: Response)
        ensures
            r@ == uploaded(path@),
    {
        Response { status: STATUS_OK, body: confirmation(path) }
    }

    /// The answer to a request with a part that names no file.
    pub fn missing_filename() -> (r: Response)
        ensures
            r@ == missing_filename(),
    {
        Response { status: STATUS_BAD_REQUEST, body: String::from_str("No filename provided") }
    }

    /// The answer to a request that failed, with the failure's own words.
    pub fn server_error(message: &str) -> (r: Response)
        ensures
            r@ == server_error(message@),
    {
        let mut body = String::from_str("Server error: ");
        body.append(message);
        Response { status: STATUS_SERVER_ERROR, body }
    }

    /// Whether the request was served in full.
    pub fn is_success(&self) -> (ok: bool)
        ensures
            ok == (self@.status == 200),
    {
        self.status == STATUS_OK
    }
}

} // verus!
