use auth_worker::scopes::{
    contains_scope, dedup_scopes, is_subset, join_scopes, parse_scopes, requested_scopes,
    sort_scopes,
};

fn strings(v: &[&str]) -> Vec<String> {
    v.iter().map(|s| s.to_string()).collect()
}

fn sorted(mut v: Vec<String>) -> Vec<String> {
    v.sort();
    v
}

#[test]
fn parse_scopes_splits_on_spaces() {
    let r = parse_scopes("openid email");
    assert_eq!(sorted(r), strings(&["email", "openid"]));
}

#[test]
fn parse_scopes_keeps_empty_pieces() {
    let r = parse_scopes("a  b");
    assert_eq!(sorted(r), strings(&["", "a", "b"]));
    assert_eq!(parse_scopes(""), strings(&[""]));
}

#[test]
fn parse_scopes_drops_repeats() {
    let r = parse_scopes("openid openid profile openid");
    assert_eq!(sorted(r), strings(&["openid", "profile"]));
}

#[test]
fn requested_scopes_absent_is_empty() {
    assert!(requested_scopes(&None).is_empty());
    assert_eq!(requested_scopes(&Some("openid".to_string())), strings(&["openid"]));
}

#[test]
fn subset_checks_every_scope() {
    let allowed = strings(&["openid", "profile"]);
    assert!(is_subset(&strings(&["openid"]), &allowed));
    assert!(is_subset(&strings(&[]), &allowed));
    assert!(!is_subset(&strings(&["openid", "email"]), &allowed));
}

#[test]
fn contains_and_dedup() {
    let v = strings(&["a", "b", "a"]);
    assert!(contains_scope(&v, &"b".to_string()));
    assert!(!contains_scope(&v, &"c".to_string()));
    assert_eq!(dedup_scopes(&v), strings(&["a", "b"]));
}

#[test]
fn join_scopes_uses_single_spaces() {
    assert_eq!(join_scopes(&strings(&["openid", "profile", "email"])), "openid profile email");
    assert_eq!(join_scopes(&strings(&["openid"])), "openid");
    assert_eq!(join_scopes(&strings(&[])), "");
}

#[test]
fn sort_scopes_orders_them() {
    let mut v = strings(&["profile", "email", "openid"]);
    sort_scopes(&mut v);
    assert_eq!(v, strings(&["email", "openid", "profile"]));
}
