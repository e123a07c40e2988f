//! The gateway's endpoints. Each request runs in two steps: a decision on
//! the request alone (refuse it, or name the helper call or the file to
//! read), then, once the caller has run that call or read that file, the
//! reply built from what came back. No state is kept between requests.
use vstd::prelude::*;
use vstd::string::*;
use crate::auth::{UserStore, check_auth, header_accepted};
use crate::locator::{
    contained_path, is_contained_path, is_plain_segment, locate, plain_segment, repo_path,
};
use crate::reply::{
    bare_reply, content_reply, is_bare_reply, is_content_reply, ContentType, Reply, Status,
};
use crate::pktline::{
    decoded_frame, encoded_line, flush_marker, lemma_decode_encoded_line, lemma_decode_flush,
    ProtocolError,
};
use crate::service::{
    advertisement_preamble, advertisement_start, lemma_encode_utf8_len, parse_service,
    query_service, service_header, service_query, Service,
};
use vstd::utf8::encode_utf8;

verus! {

/// What the version-control helper is asked to do.
#[derive(Debug)]
pub enum HelperOperation {
    /// List the repository's refs for `service` (`--advertise-refs`).
    AdvertiseRefs(Service),
    /// Answer one round of `service` (`--stateless-rpc`), reading the input.
    StatelessRpc(Service),
    /// Print the object named by this revision path (`HEAD:<file>`).
    ShowFile(String),
}

/// One run of the helper against one bare repository.
#[derive(Debug)]
pub struct HelperCall {
    pub operation: HelperOperation,
    /// The bare repository's path.
    pub repository: String,
    /// Everything the helper reads, after which its input is closed.
    pub input: Vec<u8>,
}

/// How a helper run ended.
#[derive(Debug)]
pub enum HelperOutcome {
    /// The repository's directory does not exist; the helper was not run.
    RepositoryMissing,
    /// The helper could not be started, or a stream to it failed.
    Failed,
    /// The helper ran to its end.
    Exited { success: bool, stdout: Vec<u8>, stderr: Vec<u8> },
}

/// The header value of an optional `Authorization` header, as bytes.
pub open spec fn header_bytes(h: Option<&str>) -> Option<Seq<u8>> {
    match h {
        Some(s) => Some(s.spec_bytes()),
        None => None,
    }
}

/// Why a ref advertisement is refused, checked in this order: credentials,
/// service, repository name.
pub open spec fn info_refs_refusal(
    users: Seq<(Seq<u8>, Seq<u8>)>,
    authorization: Option<Seq<u8>>,
    name: Seq<u8>,
    query: Seq<char>,
) -> Option<Status> {
    if !header_accepted(users, authorization) {
        Some(Status::Unauthorized)
    } else if query_service(query) is None {
        Some(Status::BadRequest)
    } else if !is_plain_segment(name) {
        Some(Status::NotFound)
    } else {
        None
    }
}

/// Why a pack transfer is refused, checked in this order: credentials,
/// repository name.
pub open spec fn transfer_refusal(
    users: Seq<(Seq<u8>, Seq<u8>)>,
    authorization: Option<Seq<u8>>,
    name: Seq<u8>,
) -> Option<Status> {
    if !header_accepted(users, authorization) {
        Some(Status::Unauthorized)
    } else if !is_plain_segment(name) {
        Some(Status::NotFound)
    } else {
        None
    }
}

/// The status that a helper outcome gives a protocol endpoint.
pub open spec fn transfer_status(o: HelperOutcome) -> Status {
    match o {
        HelperOutcome::RepositoryMissing => Status::NotFound,
        HelperOutcome::Failed => Status::ServerError,
        HelperOutcome::Exited { success, .. } => if success {
            Status::Success
        } else {
            Status::ServerError
        },
    }
}

/// The body of a ref advertisement of `s`.
pub open spec fn info_refs_body(s: Service, o: HelperOutcome) -> Seq<u8> {
    match o {
        HelperOutcome::Exited { success: true, stdout, .. } => advertisement_preamble(s) + stdout@,
        _ => Seq::empty(),
    }
}

/// The body of a pack-transfer reply.
pub open spec fn rpc_body(o: HelperOutcome) -> Seq<u8> {
    match o {
        HelperOutcome::Exited { success: true, stdout, .. } => stdout@,
        _ => Seq::empty(),
    }
}

/// The status that a helper outcome gives the file endpoint: a failed
/// lookup means the file is not there.
pub open spec fn text_file_status(o: HelperOutcome) -> Status {
    match o {
        HelperOutcome::RepositoryMissing => Status::NotFound,
        HelperOutcome::Failed => Status::ServerError,
        HelperOutcome::Exited { success, .. } => if success {
            Status::Success
        } else {
            Status::NotFound
        },
    }
}

/// The path of the pack catalogue of a repository.
pub open spec fn info_packs_path(base: Seq<char>, name: Seq<char>) -> Seq<char> {
    repo_path(base, name) + "/objects/info/packs"@
}

/// The path of pack file `file` of a repository.
pub open spec fn pack_file_path(base: Seq<char>, name: Seq<char>, file: Seq<char>) -> Seq<char> {
    repo_path(base, name) + "/objects/pack/"@ + file
}

/// The revision path that names `file` at the current head.
pub open spec fn head_revision_path(file: Seq<char>) -> Seq<char> {
    "HEAD:"@ + file
}

/// Decides a ref advertisement request (`GET .../info/refs?service=...`):
/// refused without valid credentials (with the challenge), without a known
/// service, or for a name that is no plain segment; else the helper call
/// that lists the refs.
pub fn handle_info_refs(
    store: &UserStore,
    authorization: Option<&str>,
    repo_name: &str,
    query: &str,
    base: &str,
) -> (r: Result<HelperCall, Reply>)
    ensures
        match r {
            Err(reply) => info_refs_refusal(
                store@,
                header_bytes(authorization),
                repo_name.spec_bytes(),
                query@,
            ) == Some(reply.status) && is_bare_reply(reply, reply.status),
            Ok(call) => {
                &&& info_refs_refusal(
                    store@,
                    header_bytes(authorization),
                    repo_name.spec_bytes(),
                    query@,
                ) is None
                &&& call.operation == HelperOperation::AdvertiseRefs(query_service(query@).unwrap())
                &&& call.repository@ == repo_path(base@, repo_name@)
                &&& call.input@.len() == 0
            },
        },
{
    if check_auth(store, authorization).is_none() {
        return Err(bare_reply(Status::Unauthorized));
    }
    let service = match parse_service(query) {
        Some(s) => s,
        None => return Err(bare_reply(Status::BadRequest)),
    };
    match locate(base, repo_name) {
        Some(repo) => Ok(
            HelperCall {
                operation: HelperOperation::AdvertiseRefs(service),
                repository: repo.path,
                input: Vec::new(),
            },
        ),
        None => Err(bare_reply(Status::NotFound)),
    }
}

/// The reply to a ref advertisement of `service`, given how the helper run
/// ended: on success the header frame, a flush marker, then the helper's
/// output unchanged.
pub fn info_refs_reply(service: Service, outcome: HelperOutcome) -> (r: Reply)
    ensures
        r.status == transfer_status(outcome),
        r.status == Status::Success ==> is_content_reply(
            r,
            ContentType::Advertisement(service),
            info_refs_body(service, outcome),
        ),
        r.status != Status::Success ==> is_bare_reply(r, r.status),
{
    match outcome {
        HelperOutcome::RepositoryMissing => bare_reply(Status::NotFound),
        HelperOutcome::Failed => bare_reply(Status::ServerError),
        HelperOutcome::Exited { success, stdout, stderr } => {
            if !success {
                return bare_reply(Status::ServerError);
            }
            let mut body = advertisement_start(service);
            let mut out = stdout;
            body.append(&mut out);
            content_reply(ContentType::Advertisement(service), body)
        },
    }
}

/// Decides a pack transfer for `service`: refused without valid credentials
/// (with the challenge) or for a name that is no plain segment; else the
/// one helper call that reads the whole request body.
pub fn handle_transfer(
    service: Service,
    store: &UserStore,
    authorization: Option<&str>,
    repo_name: &str,
    base: &str,
    body: Vec<u8>,
) -> (r: Result<HelperCall, Reply>)
    ensures
        match r {
            Err(reply) => transfer_refusal(store@, header_bytes(authorization), repo_name.spec_bytes())
                == Some(reply.status) && is_bare_reply(reply, reply.status),
            Ok(call) => {
                &&& transfer_refusal(store@, header_bytes(authorization), repo_name.spec_bytes()) is None
                &&& call.operation == HelperOperation::StatelessRpc(service)
                &&& call.repository@ == repo_path(base@, repo_name@)
                &&& call.input@ == body@
            },
        },
{
    if check_auth(store, authorization).is_none() {
        return Err(bare_reply(Status::Unauthorized));
    }
    match locate(base, repo_name) {
        Some(repo) => Ok(
            HelperCall {
                operation: HelperOperation::StatelessRpc(service),
                repository: repo.path,
                input: body,
            },
        ),
        None => Err(bare_reply(Status::NotFound)),
    }
}

/// Decides a fetch negotiation (`POST .../git-upload-pack`).
pub fn handle_upload_pack(
    store: &UserStore,
    authorization: Option<&str>,
    repo_name: &str,
    base: &str,
    body: Vec<u8>,
) -> (r: Result<HelperCall, Reply>)
    ensures
        match r {
            Err(reply) => transfer_refusal(store@, header_bytes(authorization), repo_name.spec_bytes())
                == Some(reply.status) && is_bare_reply(reply, reply.status),
            Ok(call) => {
                &&& transfer_refusal(store@, header_bytes(authorization), repo_name.spec_bytes()) is None
                &&& call.operation == HelperOperation::StatelessRpc(Service::UploadPack)
                &&& call.repository@ == repo_path(base@, repo_name@)
                &&& call.input@ == body@
            },
        },
{
    handle_transfer(Service::UploadPack, store, authorization, repo_name, base, body)
}

/// Decides a push (`POST .../git-receive-pack`).
pub fn handle_receive_pack(
    store: &UserStore,
    authorization: Option<&str>,
    repo_name: &str,
    base: &str,
    body: Vec<u8>,
) -> (r: Result<HelperCall, Reply>)
    ensures
        match r {
            Err(reply) => transfer_refusal(store@, header_bytes(authorization), repo_name.spec_bytes())
                == Some(reply.status) && is_bare_reply(reply, reply.status),
            Ok(call) => {
                &&& transfer_refusal(store@, header_bytes(authorization), repo_name.spec_bytes()) is None
                &&& call.operation == HelperOperation::StatelessRpc(Service::ReceivePack)
                &&& call.repository@ == repo_path(base@, repo_name@)
                &&& call.input@ == body@
            },
        },
{
    handle_transfer(Service::ReceivePack, store, authorization, repo_name, base, body)
}

/// The reply to a pack transfer for `service`, given how the helper run
/// ended: on success the helper's output unchanged; its error stream never
/// reaches the reply.
pub fn rpc_reply(service: Service, outcome: HelperOutcome) -> (r: Reply)
    ensures
        r.status == transfer_status(outcome),
        r.status == Status::Success ==> is_content_reply(
            r,
            ContentType::RpcResult(service),
            rpc_body(outcome),
        ),
        r.status != Status::Success ==> is_bare_reply(r, r.status),
{
    match outcome {
        HelperOutcome::RepositoryMissing => bare_reply(Status::NotFound),
        HelperOutcome::Failed => bare_reply(Status::ServerError),
        HelperOutcome::Exited { success, stdout, stderr } => {
            if !success {
                return bare_reply(Status::ServerError);
            }
            content_reply(ContentType::RpcResult(service), stdout)
        },
    }
}

/// Decides a pack-catalogue request (`GET .../objects/info/packs`): the
/// file to read, or `NotFound` for a name that is no plain segment.
pub fn handle_info_packs(repo_name: &str, base: &str) -> (r: Result<String, Reply>)
    ensures
        match r {
            Err(reply) => !is_plain_segment(repo_name.spec_bytes()) && is_bare_reply(
                reply,
                Status::NotFound,
            ),
            Ok(path) => is_plain_segment(repo_name.spec_bytes()) && path@ == info_packs_path(
                base@,
                repo_name@,
            ),
        },
{
    match locate(base, repo_name) {
        Some(repo) => {
            let mut path = repo.path;
            path.append("/objects/info/packs");
            Ok(path)
        },
        None => Err(bare_reply(Status::NotFound)),
    }
}

/// Decides a pack-file request (`GET .../objects/pack/<file>`): the file to
/// read, or `NotFound` where the repository name or the file name is no
/// plain segment.
pub fn handle_pack_file(repo_name: &str, pack_file: &str, base: &str) -> (r: Result<String, Reply>)
    ensures
        match r {
            Err(reply) => !(is_plain_segment(repo_name.spec_bytes()) && is_plain_segment(
                pack_file.spec_bytes(),
            )) && is_bare_reply(reply, Status::NotFound),
            Ok(path) => {
                &&& is_plain_segment(repo_name.spec_bytes())
                &&& is_plain_segment(pack_file.spec_bytes())
                &&& path@ == pack_file_path(base@, repo_name@, pack_file@)
            },
        },
{
    if !plain_segment(pack_file.as_bytes()) {
        return Err(bare_reply(Status::NotFound));
    }
    match locate(base, repo_name) {
        Some(repo) => {
            let mut path = repo.path;
            path.append("/objects/pack/");
            path.append(pack_file);
            Ok(path)
        },
        None => Err(bare_reply(Status::NotFound)),
    }
}

/// The reply to a read of a repository file: its content with type
/// `content_type`, or `NotFound` whatever made the read fail.
pub fn file_reply(content_type: ContentType, content: Option<Vec<u8>>) -> (r: Reply)
    ensures
        match content {
            Some(c) => is_content_reply(r, content_type, c@),
            None => is_bare_reply(r, Status::NotFound),
        },
{
    match content {
        Some(c) => content_reply(content_type, c),
        None => bare_reply(Status::NotFound),
    }
}

/// The reply to a pack-catalogue read: plain text, or `NotFound`.
pub fn info_packs_reply(content: Option<Vec<u8>>) -> (r: Reply)
    ensures
        match content {
            Some(c) => is_content_reply(r, ContentType::PlainText, c@),
            None => is_bare_reply(r, Status::NotFound),
        },
{
    file_reply(ContentType::PlainText, content)
}

/// The reply to a pack-file read: a Git pack, or `NotFound`.
pub fn pack_file_reply(content: Option<Vec<u8>>) -> (r: Reply)
    ensures
        match content {
            Some(c) => is_content_reply(r, ContentType::GitPack, c@),
            None => is_bare_reply(r, Status::NotFound),
        },
{
    file_reply(ContentType::GitPack, content)
}

/// Decides a request for one file at the current head
/// (`GET .../file/<path>`): `NotFound` for a repository name that is no
/// plain segment or a path that could climb out of the repository; else
/// the helper call that prints `HEAD:<path>`.
pub fn handle_text_file(repo_name: &str, file_path: &str, base: &str) -> (r: Result<HelperCall, Reply>)
    ensures
        match r {
            Err(reply) => !(is_plain_segment(repo_name.spec_bytes()) && is_contained_path(
                file_path.spec_bytes(),
            )) && is_bare_reply(reply, Status::NotFound),
            Ok(call) => {
                &&& is_plain_segment(repo_name.spec_bytes())
                &&& is_contained_path(file_path.spec_bytes())
                &&& call.operation matches HelperOperation::ShowFile(rev) && rev@ == head_revision_path(
                    file_path@,
                )
                &&& call.repository@ == repo_path(base@, repo_name@)
                &&& call.input@.len() == 0
            },
        },
{
    if !contained_path(file_path.as_bytes()) {
        return Err(bare_reply(Status::NotFound));
    }
    match locate(base, repo_name) {
        Some(repo) => {
            let mut rev = String::from_str("HEAD:");
            rev.append(file_path);
            Ok(
                HelperCall {
                    operation: HelperOperation::ShowFile(rev),
                    repository: repo.path,
                    input: Vec::new(),
                },
            )
        },
        None => Err(bare_reply(Status::NotFound)),
    }
}

/// The reply to a file request, given how the helper run ended: the file's
/// content as plain text, `NotFound` where the helper found nothing or the
/// repository is missing.
pub fn text_file_reply(outcome: HelperOutcome) -> (r: Reply)
    ensures
        r.status == text_file_status(outcome),
        r.status == Status::Success ==> is_content_reply(r, ContentType::PlainText, rpc_body(outcome)),
        r.status != Status::Success ==> is_bare_reply(r, r.status),
{
    match outcome {
        HelperOutcome::RepositoryMissing => bare_reply(Status::NotFound),
        HelperOutcome::Failed => bare_reply(Status::ServerError),
        HelperOutcome::Exited { success, stdout, stderr } => {
            if !success {
                return bare_reply(Status::NotFound);
            }
            content_reply(ContentType::PlainText, stdout)
        },
    }
}

/// A request that carries no `Authorization` header is refused as
/// unauthorized, with the challenge and before any helper call is named, on
/// every protocol endpoint.
pub proof fn lemma_no_credentials_unauthorized(
    users: Seq<(Seq<u8>, Seq<u8>)>,
    name: Seq<u8>,
    query: Seq<char>,
    reply: Reply,
)
    ensures
        info_refs_refusal(users, None, name, query) == Some(Status::Unauthorized),
        transfer_refusal(users, None, name) == Some(Status::Unauthorized),
        is_bare_reply(reply, Status::Unauthorized) ==> reply.challenge,
{
}

/// A successful ref advertisement of `s` reads, frame by frame, as the
/// header line `# service=<s>` and then a flush marker, ahead of the
/// helper's own output.
pub proof fn lemma_advertisement_opens_with_header(s: Service, o: HelperOutcome)
    requires
        o matches HelperOutcome::Exited { success: true, .. },
    ensures
        ({
            let body = info_refs_body(s, o);
            let header = encode_utf8(service_header(s));
            let used = header.len() + 4;
            &&& decoded_frame(body) == Ok::<_, ProtocolError>((Some(header), used))
            &&& decoded_frame(body.subrange(used as int, body.len() as int)) == Ok::<
                _,
                ProtocolError,
            >((None::<Seq<u8>>, 4nat))
        }),
{
    let body = info_refs_body(s, o);
    let header = encode_utf8(service_header(s));
    let used = header.len() + 4;
    let stdout = match o {
        HelperOutcome::Exited { stdout, .. } => stdout@,
        _ => Seq::empty(),
    };
    reveal_strlit("# service=");
    reveal_strlit("git-upload-pack");
    reveal_strlit("git-receive-pack");
    reveal_strlit("\n");
    lemma_encode_utf8_len(service_header(s));
    lemma_decode_encoded_line(header, flush_marker() + stdout);
    assert(body =~= encoded_line(header) + (flush_marker() + stdout));
    assert(body.subrange(used as int, body.len() as int) =~= flush_marker() + stdout);
    lemma_decode_flush(stdout);
}

/// With valid credentials, a ref advertisement that names no known service
/// (including an empty query) is a bad request.
pub proof fn lemma_unknown_service_bad_request(
    users: Seq<(Seq<u8>, Seq<u8>)>,
    authorization: Option<Seq<u8>>,
    name: Seq<u8>,
    query: Seq<char>,
)
    requires
        header_accepted(users, authorization),
        query_service(query) is None,
    ensures
        info_refs_refusal(users, authorization, name, query) == Some(Status::BadRequest),
        query_service(Seq::empty()) is None,
{
    reveal_strlit("service=");
    assert(service_query(Service::UploadPack).len() > 0);
    assert(service_query(Service::ReceivePack).len() > 0);
}

/// A repository that does not exist, or a name that cannot denote one, is
/// answered `NotFound` on every endpoint past the credentials check, never
/// `ServerError`.
pub proof fn lemma_missing_repository_not_found(
    users: Seq<(Seq<u8>, Seq<u8>)>,
    authorization: Option<Seq<u8>>,
    name: Seq<u8>,
    query: Seq<char>,
)
    ensures
        transfer_status(HelperOutcome::RepositoryMissing) == Status::NotFound,
        text_file_status(HelperOutcome::RepositoryMissing) == Status::NotFound,
        header_accepted(users, authorization) && !is_plain_segment(name) ==> transfer_refusal(
            users,
            authorization,
            name,
        ) == Some(Status::NotFound),
        header_accepted(users, authorization) && query_service(query) is Some && !is_plain_segment(
            name,
        ) ==> info_refs_refusal(users, authorization, name, query) == Some(Status::NotFound),
{
}

/// A helper that exits unsuccessfully makes the reply a server error with
/// an empty body, so nothing of its error stream reaches the client.
pub proof fn lemma_failed_helper_server_error(s: Service, o: HelperOutcome)
    requires
        o matches HelperOutcome::Exited { success: false, .. },
    ensures
        transfer_status(o) == Status::ServerError,
        info_refs_body(s, o).len() == 0,
        rpc_body(o).len() == 0,
{
}

} // verus!
