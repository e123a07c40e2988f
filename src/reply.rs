//! What the gateway answers: a status, an optional content type, whether
//! the Basic challenge is attached, and a body.
use vstd::prelude::*;
use vstd::string::*;
use crate::service::{Service, service_name};

verus! {

/// The outcomes a request can have.
#[derive(PartialEq, Eq, Structural, Clone, Copy, Debug)]
pub enum Status {
    /// The request succeeded.
    Success,
    /// Missing or invalid credentials.
    Unauthorized,
    /// A missing or unknown service parameter.
    BadRequest,
    /// Unknown repository or file, or a file that could not be read.
    NotFound,
    /// The helper could not run, or failed.
    ServerError,
}

impl Status {
    /// The HTTP status code.
    pub fn code(&self) -> (r: u16)
        ensures
            r == status_code(*self),
    {
        match self {
            Status::Success => 200,
            Status::Unauthorized => 401,
            Status::BadRequest => 400,
            Status::NotFound => 404,
            Status::ServerError => 500,
        }
    }
}

/// The HTTP status code of `s`.
pub open spec fn status_code(s: Status) -> u16 {
    match s {
        Status::Success => 200,
        Status::Unauthorized => 401,
        Status::BadRequest => 400,
        Status::NotFound => 404,
        Status::ServerError => 500,
    }
}

/// The media types a reply can carry.
#[derive(PartialEq, Eq, Structural, Clone, Copy, Debug)]
pub enum ContentType {
    /// `application/x-<service>-advertisement`
    Advertisement(Service),
    /// `application/x-<service>-result`
    RpcResult(Service),
    /// `application/x-git-pack`
    GitPack,
    /// `text/plain`
    PlainText,
}

/// The media type's name.
pub open spec fn mime_name(c: ContentType) -> Seq<char> {
    match c {
        ContentType::Advertisement(s) => "application/x-"@ + service_name(s) + "-advertisement"@,
        ContentType::RpcResult(s) => "application/x-"@ + service_name(s) + "-result"@,
        ContentType::GitPack => "application/x-git-pack"@,
        ContentType::PlainText => "text/plain"@,
    }
}

impl ContentType {
    /// The media type's name.
    pub fn mime(&self) -> (r: String)
        ensures
            r@ == mime_name(*self),
    {
        match self {
            ContentType::Advertisement(s) => {
                let mut m = String::from_str("application/x-");
                m.append(s.name());
                m.append("-advertisement");
                m
            },
            ContentType::RpcResult(s) => {
                let mut m = String::from_str("application/x-");
                m.append(s.name());
                m.append("-result");
                m
            },
            ContentType::GitPack => String::from_str("application/x-git-pack"),
            ContentType::PlainText => String::from_str("text/plain"),
        }
    }
}

/// A reply. `challenge` asks for the `WWW-Authenticate: Basic realm="Git"`
/// header.
#[derive(Debug)]
pub struct Reply {
    pub status: Status,
    pub content_type: Option<ContentType>,
    pub challenge: bool,
    pub body: Vec<u8>,
}

/// A reply with status `s`, no content type and no body; it carries the
/// challenge exactly when `s` is `Unauthorized`.
pub open spec fn is_bare_reply(r: Reply, s: Status) -> bool {
    &&& r.status == s
    &&& r.content_type is None
    &&& r.challenge == (s == Status::Unauthorized)
    &&& r.body@.len() == 0
}

/// A successful reply of type `c` with body `body`.
pub open spec fn is_content_reply(r: Reply, c: ContentType, body: Seq<u8>) -> bool {
    &&& r.status == Status::Success
    &&& r.content_type == Some(c)
    &&& !r.challenge
    &&& r.body@ == body
}

/// A reply with status `s` and nothing else.
pub fn bare_reply(s: Status) -> (r: Reply)
    ensures
        is_bare_reply(r, s),
{
    Reply {
        status: s,
        content_type: None,
        challenge: s == Status::Unauthorized,
        body: Vec::new(),
    }
}

/// A successful reply of type `c` carrying `body`.
pub fn content_reply(c: ContentType, body: Vec<u8>) -> (r: Reply)
    ensures
        is_content_reply(r, c, body@),
{
    Reply { status: Status::Success, content_type: Some(c), challenge: false, body }
}

} // verus!
