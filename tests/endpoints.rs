use git_gateway::auth::UserStore;
use git_gateway::gateway::{
    handle_info_packs, handle_info_refs, handle_pack_file, handle_receive_pack, handle_text_file,
    handle_upload_pack, info_packs_reply, info_refs_reply, pack_file_reply, rpc_reply,
    text_file_reply, HelperOperation, HelperOutcome,
};
use git_gateway::locator::{contained_path, locate, plain_segment};
use git_gateway::reply::{ContentType, Status};
use git_gateway::pull_request::PullRequestStatus;
use git_gateway::service::{advertisement_start, parse_service, Service};

const AUTH: &str = "Basic YWxpY2U6c2VjcmV0";

fn store() -> UserStore {
    let mut s = UserStore::new();
    s.insert("alice", "secret");
    s
}

fn exited(success: bool, stdout: &[u8], stderr: &[u8]) -> HelperOutcome {
    HelperOutcome::Exited { success, stdout: stdout.to_vec(), stderr: stderr.to_vec() }
}

#[test]
fn info_refs_without_authorization_is_unauthorized() {
    let r = handle_info_refs(&store(), None, "demo", "service=git-upload-pack", "repositories");
    let reply = r.unwrap_err();
    assert_eq!(reply.status, Status::Unauthorized);
    assert_eq!(reply.status.code(), 401);
    assert!(reply.challenge);
    assert!(reply.body.is_empty());
}

#[test]
fn info_refs_with_bad_password_is_unauthorized() {
    let r = handle_info_refs(&store(), Some("Basic YWxpY2U6d3Jvbmc="), "demo", "service=git-upload-pack", "repositories");
    assert_eq!(r.unwrap_err().status, Status::Unauthorized);
}

#[test]
fn info_refs_names_advertise_call() {
    let call = handle_info_refs(&store(), Some(AUTH), "demo", "service=git-upload-pack", "repositories").unwrap();
    assert!(matches!(call.operation, HelperOperation::AdvertiseRefs(Service::UploadPack)));
    assert_eq!(call.repository, "repositories/demo.git");
    assert!(call.input.is_empty());
    let call = handle_info_refs(&store(), Some(AUTH), "demo", "service=git-receive-pack", "repositories").unwrap();
    assert!(matches!(call.operation, HelperOperation::AdvertiseRefs(Service::ReceivePack)));
}

#[test]
fn info_refs_with_missing_or_unknown_service_is_bad_request() {
    for q in ["", "service=", "service=git-foo", "foo=git-upload-pack", "service=git-upload-pack2"] {
        let reply = handle_info_refs(&store(), Some(AUTH), "demo", q, "repositories").unwrap_err();
        assert_eq!(reply.status, Status::BadRequest);
        assert_eq!(reply.status.code(), 400);
        assert!(!reply.challenge);
    }
}

#[test]
fn info_refs_with_unusable_name_is_not_found() {
    for name in ["..", ".", "a/b", "a\\b", ""] {
        let reply = handle_info_refs(&store(), Some(AUTH), name, "service=git-upload-pack", "repositories").unwrap_err();
        assert_eq!(reply.status, Status::NotFound);
    }
}

#[test]
fn advertisement_begins_with_framed_header_and_flush() {
    let reply = info_refs_reply(Service::UploadPack, exited(true, b"003fref-lines", b""));
    assert_eq!(reply.status, Status::Success);
    assert_eq!(reply.status.code(), 200);
    assert_eq!(reply.body, b"001e# service=git-upload-pack\n0000003fref-lines".to_vec());
    assert_eq!(reply.content_type, Some(ContentType::Advertisement(Service::UploadPack)));
    assert_eq!(reply.content_type.unwrap().mime(), "application/x-git-upload-pack-advertisement");
    assert_eq!(advertisement_start(Service::ReceivePack), b"001f# service=git-receive-pack\n0000".to_vec());
}

#[test]
fn failed_advertisement_is_server_error_without_details() {
    let reply = info_refs_reply(Service::UploadPack, exited(false, b"partial", b"fatal: secret path"));
    assert_eq!(reply.status, Status::ServerError);
    assert_eq!(reply.status.code(), 500);
    assert!(reply.body.is_empty());
    assert_eq!(info_refs_reply(Service::UploadPack, HelperOutcome::Failed).status, Status::ServerError);
}

#[test]
fn missing_repository_is_not_found_everywhere() {
    assert_eq!(info_refs_reply(Service::UploadPack, HelperOutcome::RepositoryMissing).status, Status::NotFound);
    assert_eq!(rpc_reply(Service::UploadPack, HelperOutcome::RepositoryMissing).status, Status::NotFound);
    assert_eq!(rpc_reply(Service::ReceivePack, HelperOutcome::RepositoryMissing).status, Status::NotFound);
    assert_eq!(text_file_reply(HelperOutcome::RepositoryMissing).status, Status::NotFound);
    assert_eq!(info_packs_reply(None).status, Status::NotFound);
    assert_eq!(pack_file_reply(None).status, Status::NotFound);
}

#[test]
fn upload_pack_hands_whole_body_to_one_call() {
    let body = b"0032want 0123456789012345678901234567890123456789\n00000009done\n".to_vec();
    let call = handle_upload_pack(&store(), Some(AUTH), "demo", "repositories", body.clone()).unwrap();
    assert!(matches!(call.operation, HelperOperation::StatelessRpc(Service::UploadPack)));
    assert_eq!(call.repository, "repositories/demo.git");
    assert_eq!(call.input, body);
}

#[test]
fn upload_pack_reply_relays_output_unchanged() {
    let out = b"0008NAK\n\x01PACK\x00\x00\x00\x02".to_vec();
    let reply = rpc_reply(Service::UploadPack, exited(true, &out, b"warning"));
    assert_eq!(reply.status, Status::Success);
    assert_eq!(reply.body, out);
    assert_eq!(reply.content_type.unwrap().mime(), "application/x-git-upload-pack-result");
}

#[test]
fn upload_pack_without_authorization_is_unauthorized() {
    let reply = handle_upload_pack(&store(), None, "demo", "repositories", b"0000".to_vec()).unwrap_err();
    assert_eq!(reply.status, Status::Unauthorized);
    assert!(reply.challenge);
}

#[test]
fn receive_pack_hands_body_and_relays_output() {
    let call = handle_receive_pack(&store(), Some(AUTH), "demo", "repositories", b"push-data".to_vec()).unwrap();
    assert!(matches!(call.operation, HelperOperation::StatelessRpc(Service::ReceivePack)));
    assert_eq!(call.input, b"push-data".to_vec());
    let reply = rpc_reply(Service::ReceivePack, exited(true, b"report", b""));
    assert_eq!(reply.body, b"report".to_vec());
    assert_eq!(reply.content_type.unwrap().mime(), "application/x-git-receive-pack-result");
    let reply = handle_receive_pack(&store(), Some(AUTH), "../x", "repositories", Vec::new()).unwrap_err();
    assert_eq!(reply.status, Status::NotFound);
}

#[test]
fn failed_transfer_hides_error_stream() {
    let reply = rpc_reply(Service::ReceivePack, exited(false, b"", b"error: cannot lock ref"));
    assert_eq!(reply.status, Status::ServerError);
    assert!(reply.body.is_empty());
    assert_eq!(rpc_reply(Service::UploadPack, HelperOutcome::Failed).status, Status::ServerError);
}

#[test]
fn info_packs_reads_catalogue_path() {
    assert_eq!(handle_info_packs("demo", "repositories").unwrap(), "repositories/demo.git/objects/info/packs");
    assert_eq!(handle_info_packs("..", "repositories").unwrap_err().status, Status::NotFound);
    let reply = info_packs_reply(Some(b"P pack-1.pack\n".to_vec()));
    assert_eq!(reply.body, b"P pack-1.pack\n".to_vec());
    assert_eq!(reply.content_type.unwrap().mime(), "text/plain");
}

#[test]
fn pack_file_path_and_traversal() {
    assert_eq!(
        handle_pack_file("demo", "pack-1.pack", "repositories").unwrap(),
        "repositories/demo.git/objects/pack/pack-1.pack"
    );
    assert_eq!(handle_pack_file("demo", "..", "repositories").unwrap_err().status, Status::NotFound);
    assert_eq!(handle_pack_file("demo", "../../config", "repositories").unwrap_err().status, Status::NotFound);
    assert_eq!(handle_pack_file("nope/..", "pack-1.pack", "repositories").unwrap_err().status, Status::NotFound);
    let reply = pack_file_reply(Some(vec![1, 2, 3]));
    assert_eq!(reply.body, vec![1, 2, 3]);
    assert_eq!(reply.content_type.unwrap().mime(), "application/x-git-pack");
}

#[test]
fn text_file_names_head_revision() {
    let call = handle_text_file("demo", "src/main.rs", "repositories").unwrap();
    match call.operation {
        HelperOperation::ShowFile(rev) => assert_eq!(rev, "HEAD:src/main.rs"),
        _ => panic!("expected a file lookup"),
    }
    assert_eq!(call.repository, "repositories/demo.git");
}

#[test]
fn text_file_rejects_escaping_paths() {
    for p in ["../secret", "a/../../b", "/etc/passwd", "a\\b", "", "..", "a/.."] {
        assert_eq!(handle_text_file("demo", p, "repositories").unwrap_err().status, Status::NotFound);
    }
    assert!(handle_text_file("demo", "a..b/c..", "repositories").is_ok());
}

#[test]
fn text_file_reply_by_outcome() {
    let reply = text_file_reply(exited(true, b"# Readme\n", b""));
    assert_eq!(reply.status, Status::Success);
    assert_eq!(reply.body, b"# Readme\n".to_vec());
    assert_eq!(text_file_reply(exited(false, b"", b"fatal: path not in HEAD")).status, Status::NotFound);
    assert_eq!(text_file_reply(HelperOutcome::Failed).status, Status::ServerError);
}

#[test]
fn distinct_repositories_are_decided_independently() {
    let s = store();
    let a = handle_upload_pack(&s, Some(AUTH), "alpha", "repositories", b"a".to_vec()).unwrap();
    let b = handle_receive_pack(&s, Some(AUTH), "beta", "repositories", b"b".to_vec()).unwrap();
    assert_eq!(a.repository, "repositories/alpha.git");
    assert_eq!(b.repository, "repositories/beta.git");
    assert_eq!(a.input, b"a".to_vec());
    assert_eq!(b.input, b"b".to_vec());
}

#[test]
fn service_query_parsing() {
    assert_eq!(parse_service("service=git-upload-pack"), Some(Service::UploadPack));
    assert_eq!(parse_service("service=git-receive-pack"), Some(Service::ReceivePack));
    assert_eq!(parse_service("service=git-upload-archive"), None);
    assert_eq!(parse_service(""), None);
}

#[test]
fn repository_location() {
    let h = locate("/srv/git", "demo").unwrap();
    assert_eq!(h.name, "demo");
    assert_eq!(h.path, "/srv/git/demo.git");
    assert!(locate("/srv/git", "..").is_none());
    assert!(plain_segment(b"pack-abc.idx"));
    assert!(!plain_segment(b"a\0b"));
    assert!(contained_path(b"docs/README.md"));
    assert!(!contained_path(b"docs/../../x"));
}

#[test]
fn status_codes() {
    assert_eq!(Status::Success.code(), 200);
    assert_eq!(Status::Unauthorized.code(), 401);
    assert_eq!(Status::BadRequest.code(), 400);
    assert_eq!(Status::NotFound.code(), 404);
    assert_eq!(Status::ServerError.code(), 500);
}

#[test]
fn pull_request_status_words() {
    assert_eq!(PullRequestStatus::from_str("MERGED"), PullRequestStatus::Merged);
    assert_eq!(PullRequestStatus::from_str("Closed"), PullRequestStatus::Closed);
    assert_eq!(PullRequestStatus::from_str("open"), PullRequestStatus::Open);
    assert_eq!(PullRequestStatus::from_str("whatever"), PullRequestStatus::Open);
    assert_eq!(PullRequestStatus::from_lowercase("Merged"), PullRequestStatus::Open);
    assert_eq!(PullRequestStatus::from_lowercase("merged"), PullRequestStatus::Merged);
    for s in [PullRequestStatus::Open, PullRequestStatus::Closed, PullRequestStatus::Merged] {
        assert_eq!(PullRequestStatus::from_str(s.to_str()), s);
    }
    assert_eq!(PullRequestStatus::Merged.to_str(), "merged");
}
