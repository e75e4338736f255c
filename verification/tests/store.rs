use credential_store::store::CredentialStore;

#[test]
fn a_fresh_store_reads_nothing() {
    let store = CredentialStore::for_auth_token();
    assert_eq!(store.get(), Ok(None));
}

#[test]
fn a_token_that_was_set_is_read_back() {
    let mut store = CredentialStore::for_auth_token();
    assert_eq!(store.set("abc123"), Ok(()));
    assert_eq!(store.get(), Ok(Some("abc123".to_string())));
}

#[test]
fn an_empty_token_overwrites_an_earlier_one() {
    let mut store = CredentialStore::for_auth_token();
    assert_eq!(store.set("abc123"), Ok(()));
    assert_eq!(store.set(""), Ok(()));
    assert_eq!(store.get(), Ok(Some(String::new())));
}

#[test]
fn every_token_that_is_set_is_read_back() {
    let tokens = vec!["", "a", "abc123", "with space", "eyJhbGciOiJIUzI1NiJ9.e30.x", "日本語 ✓"];
    for token in tokens {
        let mut store = CredentialStore::for_auth_token();
        assert_eq!(store.set(token), Ok(()));
        assert_eq!(store.get(), Ok(Some(token.to_string())));
    }
}

#[test]
fn the_second_of_two_tokens_is_read_back() {
    let mut store = CredentialStore::for_auth_token();
    assert_eq!(store.set("first"), Ok(()));
    assert_eq!(store.set("second"), Ok(()));
    assert_eq!(store.get(), Ok(Some("second".to_string())));
}

#[test]
fn setting_the_same_token_twice_keeps_it() {
    let mut store = CredentialStore::for_auth_token();
    assert_eq!(store.set("same"), Ok(()));
    assert_eq!(store.set("same"), Ok(()));
    assert_eq!(store.get(), Ok(Some("same".to_string())));
}

#[test]
fn clearing_a_fresh_store_succeeds() {
    let mut store = CredentialStore::for_auth_token();
    assert_eq!(store.clear(), Ok(()));
    assert_eq!(store.get(), Ok(None));
}

#[test]
fn a_cleared_token_is_not_read_back() {
    let mut store = CredentialStore::for_auth_token();
    assert_eq!(store.set("abc123"), Ok(()));
    assert_eq!(store.clear(), Ok(()));
    assert_eq!(store.get(), Ok(None));
}

#[test]
fn clearing_twice_succeeds_both_times() {
    let mut store = CredentialStore::for_auth_token();
    assert_eq!(store.set("abc123"), Ok(()));
    assert_eq!(store.clear(), Ok(()));
    assert_eq!(store.clear(), Ok(()));
    assert_eq!(store.get(), Ok(None));
}

#[test]
fn a_token_can_be_set_again_after_clearing() {
    let mut store = CredentialStore::for_auth_token();
    assert_eq!(store.set("before"), Ok(()));
    assert_eq!(store.clear(), Ok(()));
    assert_eq!(store.set("after"), Ok(()));
    assert_eq!(store.get(), Ok(Some("after".to_string())));
}

#[test]
fn reading_leaves_the_token_in_place() {
    let mut store = CredentialStore::for_auth_token();
    assert_eq!(store.set("abc123"), Ok(()));
    assert_eq!(store.get(), Ok(Some("abc123".to_string())));
    assert_eq!(store.get(), Ok(Some("abc123".to_string())));
}

#[test]
fn the_store_for_the_token_has_the_fixed_key() {
    let store = CredentialStore::for_auth_token();
    assert_eq!(store.service(), "FrameFast");
    assert_eq!(store.account(), "auth_token");
}

#[test]
fn a_store_keeps_the_key_it_was_made_for() {
    let mut store = CredentialStore::new("some service", "some account");
    assert_eq!(store.get(), Ok(None));
    assert_eq!(store.set("t"), Ok(()));
    assert_eq!(store.clear(), Ok(()));
    assert_eq!(store.service(), "some service");
    assert_eq!(store.account(), "some account");
}

#[test]
fn two_stores_do_not_share_a_token() {
    let mut first = CredentialStore::for_auth_token();
    let second = CredentialStore::for_auth_token();
    assert_eq!(first.set("abc123"), Ok(()));
    assert_eq!(second.get(), Ok(None));
}
