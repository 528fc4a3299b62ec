use tgbot_downloader::auth::AuthorizationPolicy;

#[test]
fn open_policy_lets_everyone_in() {
    let policy = AuthorizationPolicy::unrestricted();
    assert!(policy.is_unrestricted());
    assert!(policy.is_authorized("123"));
    assert!(policy.is_authorized(""));
    assert!(policy.is_authorized("anyone at all"));
}

#[test]
fn empty_list_is_open() {
    let policy = AuthorizationPolicy::from_ids(Vec::new());
    assert!(policy.is_unrestricted());
    assert!(policy.is_authorized("999"));
}

#[test]
fn unset_single_identity_is_open() {
    let policy = AuthorizationPolicy::from_single(None);
    assert!(policy.is_unrestricted());
    assert!(policy.is_authorized("573167966"));
}

#[test]
fn single_identity_lets_in_only_itself() {
    let policy = AuthorizationPolicy::from_single(Some("573167966".to_string()));
    assert!(!policy.is_unrestricted());
    assert!(policy.is_authorized("573167966"));
    assert!(!policy.is_authorized("573167967"));
    assert!(!policy.is_authorized("57316796"));
    assert!(!policy.is_authorized("5731679660"));
    assert!(!policy.is_authorized(""));
}

#[test]
fn listed_identities_are_let_in_and_no_others() {
    let policy = AuthorizationPolicy::from_ids(vec![
        "123".to_string(),
        "-1001234".to_string(),
        "alice".to_string(),
    ]);
    assert!(policy.is_authorized("123"));
    assert!(policy.is_authorized("-1001234"));
    assert!(policy.is_authorized("alice"));
    assert!(!policy.is_authorized("999"));
    assert!(!policy.is_authorized("Alice"));
    assert!(!policy.is_authorized("alice "));
    assert!(!policy.is_authorized("1234"));
}

#[test]
fn matching_is_exact() {
    let policy = AuthorizationPolicy::from_ids(vec!["123".to_string()]);
    assert!(!policy.is_authorized(" 123"));
    assert!(!policy.is_authorized("0123"));
    assert!(!policy.is_authorized("12"));
    assert!(!policy.is_authorized("١٢٣"));
}

#[test]
fn a_list_with_only_the_empty_identity_is_not_open() {
    let policy = AuthorizationPolicy::from_single(Some(String::new()));
    assert!(!policy.is_unrestricted());
    assert!(policy.is_authorized(""));
    assert!(!policy.is_authorized("123"));
}

#[test]
fn a_repeated_identity_changes_nothing() {
    let policy = AuthorizationPolicy::from_ids(vec!["7".to_string(), "7".to_string()]);
    assert!(policy.is_authorized("7"));
    assert!(!policy.is_authorized("77"));
}
