//! The uniform response envelope: every handler answers with an
//! `ApiResponse`, and rejections and plain-body answers are rendered as a
//! fixed-shape JSON object `{"status":...,"message":...}`.
use vstd::prelude::*;

verus! {

/// The `{status, message, data}` envelope that every endpoint answers with.
pub struct ApiResponse<T> {
    pub status: u16,
    pub message: String,
    pub data: Option<T>,
}

impl<T> ApiResponse<T> {
    /// A successful answer: HTTP 200 with a payload.
    pub fn success(message: &str, data: T) -> (r: Self)
        ensures
            r.status == 200,
            r.message@ == message@,
            r.data == Some(data),
    {
        ApiResponse { status: 200, message: message.to_owned(), data: Some(data) }
    }

    /// A failed answer: the given status, no payload.
    pub fn error(status: u16, message: &str) -> (r: Self)
        ensures
            r.status == status,
            r.message@ == message@,
            r.data is None,
    {
        ApiResponse { status, message: message.to_owned(), data: None }
    }
}

/// A response already rendered for the transport: a status code and a JSON
/// body.
pub struct HttpReply {
    pub status: u16,
    pub body: String,
}

/// The JSON error envelope `{"status":"error","message":"<m>"}`.
pub open spec fn json_error_body(m: Seq<char>) -> Seq<char> {
    "{\"status\":\"error\",\"message\":\""@ + m + "\"}"@
}

/// The JSON login-success envelope
/// `{"status":"ok","message":"Success Login","token":"<t>"}`.
pub open spec fn json_login_ok_body(token: Seq<char>) -> Seq<char> {
    "{\"status\":\"ok\",\"message\":\"Success Login\",\"token\":\""@ + token + "\"}"@
}

/// Renders the JSON error envelope around `message`.
pub fn error_body(message: &str) -> (r: String)
    ensures
        r@ == json_error_body(message@),
{
    let mut s = String::new();
    s.append("{\"status\":\"error\",\"message\":\"");
    s.append(message);
    s.append("\"}");
    s
}

/// Renders the JSON login-success envelope around `token`.
pub fn login_ok_body(token: &str) -> (r: String)
    ensures
        r@ == json_login_ok_body(token@),
{
    let mut s = String::new();
    s.append("{\"status\":\"ok\",\"message\":\"Success Login\",\"token\":\"");
    s.append(token);
    s.append("\"}");
    s
}

/// An error reply rendered for the transport.
pub fn error_reply(status: u16, message: &str) -> (r: HttpReply)
    ensures
        r.status == status,
        r.body@ == json_error_body(message@),
{
    HttpReply { status, body: error_body(message) }
}

} // verus!
