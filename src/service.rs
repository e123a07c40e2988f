//! The two Smart HTTP services, how a request names them, and the
//! announcement that opens a ref advertisement.
use vstd::prelude::*;
use vstd::string::*;
use vstd::utf8::{encode_utf8, encode_scalar};
use crate::pktline::{encode_line, encoded_line, flush, flush_marker};

verus! {

/// A helper service a client can ask for.
#[derive(PartialEq, Eq, Structural, Clone, Copy, Debug)]
pub enum Service {
    /// Fetch and clone: `git-upload-pack`.
    UploadPack,
    /// Push: `git-receive-pack`.
    ReceivePack,
}

/// The service's name on the wire.
pub open spec fn service_name(s: Service) -> Seq<char> {
    match s {
        Service::UploadPack => "git-upload-pack"@,
        Service::ReceivePack => "git-receive-pack"@,
    }
}

/// The query string that asks for `s`.
pub open spec fn service_query(s: Service) -> Seq<char> {
    "service="@ + service_name(s)
}

/// The service a query string asks for.
pub open spec fn query_service(query: Seq<char>) -> Option<Service> {
    if query == service_query(Service::UploadPack) {
        Some(Service::UploadPack)
    } else if query == service_query(Service::ReceivePack) {
        Some(Service::ReceivePack)
    } else {
        None
    }
}

/// The line that opens the advertisement of `s`.
pub open spec fn service_header(s: Service) -> Seq<char> {
    "# service="@ + service_name(s) + "\n"@
}

/// What precedes the helper's own output in an advertisement of `s`: the
/// header as one frame, then a flush marker.
pub open spec fn advertisement_preamble(s: Service) -> Seq<u8> {
    encoded_line(encode_utf8(service_header(s))) + flush_marker()
}

impl Service {
    /// The service's name on the wire.
    pub fn name(&self) -> (r: &'static str)
        ensures
            r@ == service_name(*self),
    {
        match self {
            Service::UploadPack => "git-upload-pack",
            Service::ReceivePack => "git-receive-pack",
        }
    }
}

/// The service that the query string `query` asks for: it must read
/// `service=git-upload-pack` or `service=git-receive-pack`.
pub fn parse_service(query: &str) -> (r: Option<Service>)
    ensures
        r == query_service(query@),
{
    let q = String::from_str(query);
    let mut upload = String::from_str("service=");
    upload.append(Service::UploadPack.name());
    if q == upload {
        return Some(Service::UploadPack);
    }
    let mut receive = String::from_str("service=");
    receive.append(Service::ReceivePack.name());
    if q == receive {
        return Some(Service::ReceivePack);
    }
    None
}

/// A UTF-8 encoding takes at most four bytes per character.
pub proof fn lemma_encode_utf8_len(chars: Seq<char>)
    ensures
        encode_utf8(chars).len() <= 4 * chars.len(),
    decreases chars.len(),
{
    if chars.len() > 0 {
        lemma_encode_utf8_len(chars.drop_first());
        assert(encode_scalar(chars[0] as u32).len() <= 4);
    }
}

/// The header line of the advertisement of `s`, as one frame, followed by
/// a flush marker.
pub fn advertisement_start(s: Service) -> (r: Vec<u8>)
    ensures
        r@ == advertisement_preamble(s),
{
    let mut header = String::from_str("# service=");
    header.append(s.name());
    header.append("\n");
    proof {
        reveal_strlit("# service=");
        reveal_strlit("git-upload-pack");
        reveal_strlit("git-receive-pack");
        reveal_strlit("\n");
        lemma_encode_utf8_len(header@);
    }
    let mut out = encode_line(header.as_str().as_bytes());
    let mut marker = flush();
    out.append(&mut marker);
    out
}

} // verus!
