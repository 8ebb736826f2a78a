//! What a handler answers: a status code with a message, or with the common
//! response envelope.

use vstd::prelude::*;

verus! {

pub const OK: u16 = 200;

pub const CREATED: u16 = 201;

pub const BAD_REQUEST: u16 = 400;

pub const UNAUTHORIZED: u16 = 401;

pub const FORBIDDEN: u16 = 403;

pub const NOT_FOUND: u16 = 404;

pub const INTERNAL_SERVER_ERROR: u16 = 500;

/// A request turned down: the status code and the text sent with it.
#[derive(Debug)]
pub struct Refusal {
    pub status: u16,
    pub message: String,
}

/// The mathematical value of a [`Refusal`].
pub struct RefusalView {
    pub status: u16,
    pub message: Seq<char>,
}

impl View for Refusal {
    type V = RefusalView;

    open spec fn view(&self) -> RefusalView {
        RefusalView { status: self.status, message: self.message@ }
    }
}

/// Builds a refusal.
pub fn refuse(status: u16, message: &str) -> (r: Refusal)
    ensures
        r@ == (RefusalView { status, message: message@ }),
{
    Refusal { status, message: message.to_owned() }
}

/// Builds a refusal whose text is `prefix` followed by `detail`.
pub fn refuse_with(status: u16, prefix: &str, detail: &str) -> (r: Refusal)
    ensures
        r@ == (RefusalView { status, message: prefix@ + detail@ }),
{
    let mut message: String = prefix.to_owned();
    message.append(detail);
    Refusal { status, message }
}

/// The mathematical value of a result that carries a refusal.
pub open spec fn refusal_view<T>(r: Result<T, Refusal>) -> Option<RefusalView> {
    match r {
        Ok(_) => None,
        Err(e) => Some(e@),
    }
}

/// The mathematical value of a result that carries a text or a refusal.
pub open spec fn text_or_refusal(r: Result<String, Refusal>) -> Result<Seq<char>, RefusalView> {
    match r {
        Ok(t) => Ok(t@),
        Err(e) => Err(e@),
    }
}

/// A refusal with this status and text.
pub open spec fn refusal(status: u16, message: Seq<char>) -> RefusalView {
    RefusalView { status, message }
}

/// The envelope every handler answers with.
#[derive(Debug)]
pub struct ApiResponse<T> {
    /// Whether the request succeeded.
    pub status: bool,
    pub message: String,
    pub data: T,
}

/// An envelope together with the status code it is sent under.
#[derive(Debug)]
pub struct Reply<T> {
    pub code: u16,
    pub body: ApiResponse<T>,
}

/// The answer to a request that succeeded.
pub fn success_response<T>(message: &str, data: T, status_code: u16) -> (r: Reply<T>)
    ensures
        r.code == status_code,
        r.body.status,
        r.body.message@ == message@,
        r.body.data == data,
{
    Reply { code: status_code, body: ApiResponse { status: true, message: message.to_owned(), data } }
}

/// The answer to a request that failed: the data is an empty list.
pub fn error_response(message: &str, status_code: u16) -> (r: Reply<Vec<String>>)
    ensures
        r.code == status_code,
        !r.body.status,
        r.body.message@ == message@,
        r.body.data@.len() == 0,
{
    Reply {
        code: status_code,
        body: ApiResponse { status: false, message: message.to_owned(), data: Vec::new() },
    }
}

/// Whether `r` answers a success under `code` with `message`.
pub open spec fn succeeded_with<T>(r: Reply<T>, code: u16, message: Seq<char>) -> bool {
    r.code == code && r.body.status && r.body.message@ == message
}

impl Refusal {
    /// The envelope that carries this refusal.
    pub fn envelope(&self) -> (r: Reply<Vec<String>>)
        ensures
            r.code == self.status,
            !r.body.status,
            r.body.message@ == self.message@,
            r.body.data@.len() == 0,
    {
        error_response(self.message.as_str(), self.status)
    }
}

} // verus!
