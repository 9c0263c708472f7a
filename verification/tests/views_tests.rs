use nano_url::backend::{self, RecentLink};
use nano_url::views::home::{validate_alias, validate_url, HomeForm};
use nano_url::views::recent::{recent_view, RecentView};

#[test]
fn url_hints() {
    assert_eq!(validate_url(""), Some("URL is required"));
    assert_eq!(validate_url("  "), Some("URL is required"));
    assert_eq!(validate_url("a b"), Some("URL must not contain whitespace"));
    assert_eq!(validate_url("https://e.com"), None);
}

#[test]
fn alias_hints() {
    assert_eq!(validate_alias("abcd"), Some("Alias must be at least 5 characters"));
    assert_eq!(validate_alias("ab cd"), Some("Alias can only contain letters, numbers, - and _"));
    assert_eq!(validate_alias("ab_cd"), None);
}

#[test]
fn hints_agree_with_the_server() {
    let samples = ["", " ", "abcd", "abcde", "a b c", "héllo", "my-link", "a$bcdef", "éé"];
    for s in samples {
        assert_eq!(validate_url(s).is_none(), backend::validate_url(s).is_ok());
        assert_eq!(validate_alias(s).is_none(), backend::validate_alias(s).is_ok());
    }
}

#[test]
fn typing_sets_hints() {
    let mut form = HomeForm::new();
    form.input_long_url("a b".to_string());
    assert_eq!(form.long_url, "a b");
    assert_eq!(form.long_url_error.as_deref(), Some("URL must not contain whitespace"));
    form.input_long_url(String::new());
    assert_eq!(form.long_url_error, None);
    form.input_alias("abc".to_string());
    assert_eq!(form.alias.as_deref(), Some("abc"));
    assert_eq!(form.alias_error.as_deref(), Some("Alias must be at least 5 characters"));
    form.input_alias(String::new());
    assert_eq!(form.alias, None);
    assert_eq!(form.alias_error, None);
}

#[test]
fn submit_refuses_an_empty_form() {
    let mut form = HomeForm::new();
    assert!(form.submit().is_none());
    assert_eq!(form.long_url_error.as_deref(), Some("URL is required"));
    assert_eq!(form.alias_error, None);
}

#[test]
fn submit_sends_the_fields() {
    let mut form = HomeForm::new();
    form.input_long_url("https://e.com".to_string());
    form.input_alias("my-alias".to_string());
    form.expiration = Some("2030-01-31".to_string());
    let req = form.submit().expect("a request");
    assert_eq!(req.url, "https://e.com");
    assert_eq!(req.alias.as_deref(), Some("my-alias"));
    assert_eq!(req.expiration.as_deref(), Some("2030-01-31"));
    form.created("http://h/my-alias".to_string());
    assert_eq!(form.nano_url.as_deref(), Some("http://h/my-alias"));
    assert_eq!(form.long_url, "");
    assert_eq!(form.alias, None);
    assert_eq!(form.expiration, None);
}

#[test]
fn submit_refuses_a_bad_alias() {
    let mut form = HomeForm::new();
    form.input_long_url("https://e.com".to_string());
    form.input_alias("a b".to_string());
    assert!(form.submit().is_none());
    assert_eq!(form.long_url_error, None);
    assert_eq!(form.alias_error.as_deref(), Some("Alias must be at least 5 characters"));
}

fn link(n: i64) -> RecentLink {
    RecentLink { short: format!("http://h/{}", n), url: "https://e.com".to_string(), clicks: n }
}

#[test]
fn recent_page_states() {
    match recent_view(Some(Ok(vec![link(1), link(2)]))) {
        RecentView::Links(links) => {
            assert_eq!(links.len(), 2);
            assert_eq!(links[1].clicks, 2);
        }
        RecentView::Notice(t) => panic!("unexpected notice {}", t),
    }
    assert!(matches!(recent_view(Some(Ok(vec![]))), RecentView::Notice("No links yet — make one!")));
    assert!(matches!(recent_view(Some(Err(()))), RecentView::Notice("Failed to load recent links.")));
    assert!(matches!(recent_view(None), RecentView::Notice("Loading…")));
}
