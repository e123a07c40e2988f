use git_gateway::auth::{basic_credentials, check_auth, check_decoded_credentials, split_at_colon, UserStore};

fn store() -> UserStore {
    let mut s = UserStore::new();
    s.insert("alice", "secret");
    s.insert("bob", "hunter2");
    s
}

#[test]
fn valid_basic_credentials_identify_user() {
    assert_eq!(check_auth(&store(), Some("Basic YWxpY2U6c2VjcmV0")), Some("alice".to_string()));
    assert_eq!(check_auth(&store(), Some("Basic Ym9iOmh1bnRlcjI=")), Some("bob".to_string()));
}

#[test]
fn missing_header_is_not_authenticated() {
    assert_eq!(check_auth(&store(), None), None);
}

#[test]
fn wrong_password_is_not_authenticated() {
    assert_eq!(check_auth(&store(), Some("Basic YWxpY2U6d3Jvbmc=")), None);
}

#[test]
fn other_scheme_is_not_authenticated() {
    assert_eq!(check_auth(&store(), Some("Bearer YWxpY2U6c2VjcmV0")), None);
    assert_eq!(check_auth(&store(), Some("basic YWxpY2U6c2VjcmV0")), None);
}

#[test]
fn malformed_base64_is_not_authenticated() {
    assert_eq!(check_auth(&store(), Some("Basic !!!not-base64")), None);
    assert_eq!(check_auth(&store(), Some("Basic YWxpY2U6c2VjcmV0=")), None);
}

#[test]
fn credentials_without_colon_are_not_authenticated() {
    assert_eq!(check_auth(&store(), Some("Basic YWxpY2U=")), None);
}

#[test]
fn non_utf8_credentials_are_not_authenticated() {
    assert_eq!(check_auth(&store(), Some("Basic //46c2VjcmV0")), None);
}

#[test]
fn unknown_user_is_not_authenticated() {
    assert_eq!(check_auth(&UserStore::new(), Some("Basic YWxpY2U6c2VjcmV0")), None);
}

#[test]
fn password_may_hold_colons() {
    let mut s = UserStore::new();
    s.insert("alice", "se:cret");
    assert_eq!(check_auth(&s, Some("Basic YWxpY2U6c2U6Y3JldA==")), Some("alice".to_string()));
}

#[test]
fn later_password_replaces_earlier() {
    let mut s = store();
    s.insert("alice", "changed");
    assert_eq!(check_auth(&s, Some("Basic YWxpY2U6c2VjcmV0")), None);
    assert_eq!(s.verify(b"alice", b"changed"), Some("alice".to_string()));
}

#[test]
fn repeated_scheme_words_are_stripped() {
    assert_eq!(basic_credentials(b"Basic Basic abc"), Some(b"abc".to_vec()));
    assert_eq!(basic_credentials(b"Basic abc"), Some(b"abc".to_vec()));
    assert_eq!(basic_credentials(b"Digest abc"), None);
    assert_eq!(basic_credentials(b"Basic"), None);
}

#[test]
fn split_at_first_colon() {
    assert_eq!(split_at_colon(b"a:b:c"), Some((b"a".to_vec(), b"b:c".to_vec())));
    assert_eq!(split_at_colon(b":"), Some((Vec::new(), Vec::new())));
    assert_eq!(split_at_colon(b"abc"), None);
}

#[test]
fn decoded_credentials_checked_against_store() {
    assert_eq!(check_decoded_credentials(&store(), b"alice:secret"), Some("alice".to_string()));
    assert_eq!(check_decoded_credentials(&store(), b"alice:secret2"), None);
    assert_eq!(check_decoded_credentials(&store(), b"alicesecret"), None);
}
