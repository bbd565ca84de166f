use vstd::prelude::*;

verus! {

/// The parts of an HTTP response that the handlers decide.
pub struct HttpReply {
    /// The status code.
    pub status: u16,
    /// The `Location` header, for redirects.
    pub location: Option<String>,
    /// Whether the body is served as `text/html`.
    pub html: bool,
    /// The body.
    pub body: String,
}

/// An error that ends a request with the given status; `message` is what the
/// error displays.
pub struct AppError {
    pub status: u16,
    pub message: String,
}

/// `reply` is a `303 See Other` redirect to `location` with an empty body.
pub open spec fn is_see_other(reply: HttpReply, location: Seq<char>) -> bool {
    &&& reply.status == 303
    &&& reply.location matches Some(l) && l@ == location
    &&& !reply.html
    &&& reply.body@.len() == 0
}

/// `reply` is a `200 OK` HTML page with the given body.
pub open spec fn is_html_page(reply: HttpReply, body: Seq<char>) -> bool {
    &&& reply.status == 200
    &&& reply.location is None
    &&& reply.html
    &&& reply.body@ == body
}

/// `reply` carries the given status, no header and an empty body.
pub open spec fn is_empty_reply(reply: HttpReply, status: u16) -> bool {
    &&& reply.status == status
    &&& reply.location is None
    &&& !reply.html
    &&& reply.body@.len() == 0
}

/// A `303 See Other` redirect to `location`.
pub fn see_other(location: &str) -> (r: HttpReply)
    ensures
        is_see_other(r, location@),
{
    HttpReply { status: 303, location: Some(location.to_owned()), html: false, body: String::new() }
}

/// A `200 OK` HTML page.
pub fn html_page(body: String) -> (r: HttpReply)
    ensures
        is_html_page(r, body@),
{
    HttpReply { status: 200, location: None, html: true, body }
}

/// A reply with the given status and nothing else.
pub fn empty_reply(status: u16) -> (r: HttpReply)
    ensures
        is_empty_reply(r, status),
{
    HttpReply { status, location: None, html: false, body: String::new() }
}

/// An opaque `500 Internal Server Error` that keeps the cause's message.
pub fn e500(message: String) -> (r: AppError)
    ensures
        r.status == 500,
        r.message@ == message@,
{
    AppError { status: 500, message }
}

/// A `400 Bad Request` that reports the validation error to the user.
pub fn e400(message: String) -> (r: AppError)
    ensures
        r.status == 400,
        r.message@ == message@,
{
    AppError { status: 400, message }
}

} // verus!
