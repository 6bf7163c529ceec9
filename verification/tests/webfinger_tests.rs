use bayou::webfinger::{resolve_webfinger, WebfingerError, WebfingerQuery, WebfingerResult};

#[test]
fn parse_query_with_prefix() {
    let q = WebfingerQuery::parse_query("acct:bob@example.com".to_string());
    assert!(q.has_prefix);
    assert_eq!(q.preferred_username.as_deref(), Some("bob"));
    assert_eq!(q.domain.as_deref(), Some("example.com"));
}

#[test]
fn parse_query_without_prefix() {
    let q = WebfingerQuery::parse_query("bob@example.com".to_string());
    assert!(!q.has_prefix);
    assert_eq!(q.preferred_username.as_deref(), Some("bob"));
    assert_eq!(q.domain.as_deref(), Some("example.com"));
}

#[test]
fn parse_query_without_domain() {
    let q = WebfingerQuery::parse_query("acct:bob".to_string());
    assert!(q.has_prefix);
    assert_eq!(q.preferred_username.as_deref(), Some("bob"));
    assert_eq!(q.domain, None);
}

#[test]
fn parse_query_keeps_only_second_piece() {
    let q = WebfingerQuery::parse_query("a@b@c".to_string());
    assert_eq!(q.preferred_username.as_deref(), Some("a"));
    assert_eq!(q.domain.as_deref(), Some("b"));
}

#[test]
fn parse_query_empty() {
    let q = WebfingerQuery::parse_query(String::new());
    assert!(!q.has_prefix);
    assert_eq!(q.preferred_username.as_deref(), Some(""));
    assert_eq!(q.domain, None);
}

#[test]
fn parse_query_prefix_is_case_sensitive() {
    let q = WebfingerQuery::parse_query("ACCT:bob@example.com".to_string());
    assert!(!q.has_prefix);
    assert_eq!(q.preferred_username.as_deref(), Some("ACCT:bob"));
}

#[test]
fn resolve_rejects_other_domain() {
    let q = WebfingerQuery::parse_query("acct:bob@other.org".to_string());
    assert!(matches!(
        resolve_webfinger(q, "example.com"),
        Err(WebfingerError::NotFromThisDomain)
    ));
}

#[test]
fn resolve_ignores_ascii_case_of_domain() {
    let q = WebfingerQuery::parse_query("acct:bob@EXAMPLE.Com".to_string());
    let t = resolve_webfinger(q, "example.com").ok().unwrap();
    assert_eq!(t.preferred_username, "bob");
    assert!(!t.is_instance_actor);
}

#[test]
fn resolve_without_user() {
    let q = WebfingerQuery {
        has_prefix: false,
        preferred_username: None,
        domain: None,
    };
    assert!(matches!(
        resolve_webfinger(q, "example.com"),
        Err(WebfingerError::NoPreferredUsername)
    ));
}

#[test]
fn resolve_instance_actor() {
    let q = WebfingerQuery::parse_query("acct:example.com@example.com".to_string());
    let t = resolve_webfinger(q, "example.com").ok().unwrap();
    assert!(t.is_instance_actor);
    assert_eq!(t.preferred_username, "example.com");
}

#[test]
fn webfinger_result_fields() {
    let r = WebfingerResult::new("bob", "example.com", "https://example.com/users/bob");
    assert_eq!(r.subject, "acct:bob@example.com");
    assert_eq!(
        r.aliases,
        Some(vec![
            "https://example.com/users/bob".to_string(),
            "https://example.com/@bob".to_string()
        ])
    );
    assert_eq!(r.links.len(), 3);
    assert_eq!(r.links[0].rel, "self");
    assert_eq!(r.links[0].type_field, "application/activity+json");
    assert_eq!(r.links[0].href, "https://example.com/users/bob/ap");
    assert_eq!(r.links[1].rel, "self");
    assert_eq!(r.links[1].type_field, "application/json");
    assert_eq!(r.links[1].href, "https://example.com/users/bob/versia");
    assert_eq!(r.links[2].rel, "http://webfinger.net/rel/profile-page");
    assert_eq!(r.links[2].type_field, "text/html");
    assert_eq!(r.links[2].href, "https://example.com/@bob");
}

#[test]
fn subject_parses_back() {
    let r = WebfingerResult::new("alice", "social.example", "https://social.example/users/alice");
    let q = WebfingerQuery::parse_query(r.subject.clone());
    assert!(q.has_prefix);
    assert_eq!(q.preferred_username.as_deref(), Some("alice"));
    assert_eq!(q.domain.as_deref(), Some("social.example"));
    let t = resolve_webfinger(q, "social.example").ok().unwrap();
    assert_eq!(t.preferred_username, "alice");
}

#[test]
fn subject_resolves_back() {
    for user in ["alice", "bayou.example"] {
        let answer = WebfingerResult::new(user, "bayou.example", "https://bayou.example/users/x");
        let target = resolve_webfinger(WebfingerQuery::parse_query(answer.subject), "bayou.example")
            .ok()
            .unwrap();
        assert_eq!(target.preferred_username, user);
        assert_eq!(target.is_instance_actor, user == "bayou.example");
    }
}
