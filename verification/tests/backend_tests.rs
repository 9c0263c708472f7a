use nano_url::backend::{
    base_url, get_recent_links, redirect, short_link, validate_alias, validate_url,
    CreateUrlError, Lookup, RedirectReply,
};

fn bad_request(r: Result<(), CreateUrlError>) -> String {
    match r {
        Err(CreateUrlError::BadRequest(m)) => m,
        other => panic!("expected a bad request, got {:?}", other),
    }
}

#[test]
fn blank_urls_are_refused() {
    assert_eq!(bad_request(validate_url("")), "url is empty or whitespace");
    assert_eq!(bad_request(validate_url("   ")), "url is empty or whitespace");
    assert_eq!(bad_request(validate_url("\t\n")), "url is empty or whitespace");
}

#[test]
fn urls_with_whitespace_are_refused() {
    assert_eq!(bad_request(validate_url("http://a b")), "url must not contain whitespace");
    assert_eq!(bad_request(validate_url(" http://a")), "url must not contain whitespace");
    assert_eq!(bad_request(validate_url("x\u{3000}y")), "url must not contain whitespace");
}

#[test]
fn good_urls_pass() {
    assert!(validate_url("https://example.com/some/path?x=1").is_ok());
    assert!(validate_url("a").is_ok());
}

#[test]
fn short_aliases_are_refused() {
    assert_eq!(bad_request(validate_alias("")), "alias must be at least 5 characters");
    assert_eq!(bad_request(validate_alias("abcd")), "alias must be at least 5 characters");
    assert_eq!(bad_request(validate_alias("éé")), "alias must be at least 5 characters");
}

#[test]
fn aliases_with_other_characters_are_refused() {
    assert_eq!(
        bad_request(validate_alias("my link")),
        "alias can only contain letters, numbers, - and _"
    );
    assert_eq!(
        bad_request(validate_alias("abc$de")),
        "alias can only contain letters, numbers, - and _"
    );
}

#[test]
fn good_aliases_pass() {
    assert!(validate_alias("abcde").is_ok());
    assert!(validate_alias("my-link_2").is_ok());
    assert!(validate_alias("ééé").is_ok());
}

#[test]
fn status_codes_and_messages() {
    let bad = CreateUrlError::BadRequest("nope".to_string());
    assert_eq!(bad.as_status_code(), 400);
    assert_eq!(bad.message(), "nope");
    assert_eq!(CreateUrlError::AliasTaken.as_status_code(), 409);
    assert_eq!(
        CreateUrlError::AliasTaken.message(),
        "That nano url is already taken, try another one"
    );
    assert_eq!(CreateUrlError::Internal.as_status_code(), 500);
    assert_eq!(
        CreateUrlError::Internal.message(),
        "Something went wrong creating your link, please try again"
    );
}

#[test]
fn base_url_defaults_to_localhost() {
    assert_eq!(base_url(None), "http://localhost:8080");
    assert_eq!(base_url(Some("https://nano.example".to_string())), "https://nano.example");
}

#[test]
fn short_links_join_base_and_hash() {
    assert_eq!(short_link("http://localhost:8080", "abcdef"), "http://localhost:8080/abcdef");
    assert_eq!(short_link("http://localhost:8080/", "abcdef"), "http://localhost:8080/abcdef");
    assert_eq!(short_link("http://localhost:8080///", "xy"), "http://localhost:8080/xy");
    assert_eq!(short_link("", "abc"), "/abc");
}

#[test]
fn a_trailing_slash_does_not_change_the_link() {
    for base in ["https://n.io", "https://n.io/a", ""] {
        let with_slash = format!("{}/", base);
        assert_eq!(short_link(&with_slash, "code12"), short_link(base, "code12"));
    }
}

#[test]
fn redirect_replies() {
    match redirect(Lookup::Found("https://example.com".to_string())) {
        RedirectReply::Temporary(to) => assert_eq!(to, "https://example.com"),
        _ => panic!("expected a redirect"),
    }
    assert_eq!(redirect(Lookup::Found("x".to_string())).status_code(), 307);
    assert!(matches!(redirect(Lookup::Missing), RedirectReply::NotFound));
    assert_eq!(redirect(Lookup::Missing).status_code(), 404);
    assert!(matches!(redirect(Lookup::Failed), RedirectReply::ServerError));
    assert_eq!(redirect(Lookup::Failed).status_code(), 500);
}

#[test]
fn recent_links_get_their_short_form() {
    let rows = vec![
        ("abcdef".to_string(), "https://a.example".to_string(), 3i64),
        ("my-alias".to_string(), "https://b.example".to_string(), 0i64),
    ];
    let links = get_recent_links("https://n.io/", &rows);
    assert_eq!(links.len(), 2);
    assert_eq!(links[0].short, "https://n.io/abcdef");
    assert_eq!(links[0].url, "https://a.example");
    assert_eq!(links[0].clicks, 3);
    assert_eq!(links[1].short, "https://n.io/my-alias");
    assert_eq!(links[1].url, "https://b.example");
    assert_eq!(links[1].clicks, 0);
    assert!(get_recent_links("x", &[]).is_empty());
}
