use nano_url::backend::{CreateUrlError, CreateUrlRequest};
use nano_url::codec::encode;
use nano_url::create::{create_url, InsertOutcome, Step, MAX_RETRIES};

fn request(url: &str, alias: Option<&str>) -> CreateUrlRequest {
    CreateUrlRequest {
        url: url.to_string(),
        alias: alias.map(|a| a.to_string()),
        expiration: None,
    }
}

fn reply(step: Step) -> Result<String, CreateUrlError> {
    match step {
        Step::Reply(r) => r,
        Step::Insert(h) => panic!("expected a reply, got an insert of {}", h),
        Step::Generate => panic!("expected a reply, got a request for an id"),
    }
}

fn insert(step: Step) -> String {
    match step {
        Step::Insert(h) => h,
        _ => panic!("expected an insert"),
    }
}

#[test]
fn a_bad_url_is_answered_at_once() {
    let (_, step) = create_url(&request(" ", Some("alias1")), "http://localhost:8080");
    match reply(step) {
        Err(CreateUrlError::BadRequest(m)) => assert_eq!(m, "url is empty or whitespace"),
        other => panic!("unexpected {:?}", other),
    }
}

#[test]
fn a_bad_alias_is_answered_at_once() {
    let (_, step) = create_url(&request("https://e.com", Some("abc")), "http://localhost:8080");
    match reply(step) {
        Err(CreateUrlError::BadRequest(m)) => assert_eq!(m, "alias must be at least 5 characters"),
        other => panic!("unexpected {:?}", other),
    }
}

#[test]
fn an_alias_is_inserted_as_it_is() {
    let (mut flow, step) =
        create_url(&request("https://e.com", Some("my-alias")), "http://localhost:8080/");
    assert_eq!(insert(step), "my-alias");
    let done = flow.inserted(InsertOutcome::Stored("my-alias".to_string()));
    assert_eq!(reply(done).unwrap(), "http://localhost:8080/my-alias");
}

#[test]
fn a_taken_alias_is_not_retried() {
    let (mut flow, step) = create_url(&request("https://e.com", Some("my-alias")), "http://h");
    insert(step);
    assert!(matches!(reply(flow.inserted(InsertOutcome::Conflict)), Err(CreateUrlError::AliasTaken)));
}

#[test]
fn a_store_failure_is_internal() {
    let (mut flow, step) = create_url(&request("https://e.com", Some("my-alias")), "http://h");
    insert(step);
    assert!(matches!(reply(flow.inserted(InsertOutcome::Failed)), Err(CreateUrlError::Internal)));

    let (mut flow, step) = create_url(&request("https://e.com", None), "http://h");
    assert!(matches!(step, Step::Generate));
    insert(flow.generated(7));
    assert!(matches!(reply(flow.inserted(InsertOutcome::Failed)), Err(CreateUrlError::Internal)));
}

#[test]
fn a_generated_code_is_the_code_of_the_id() {
    let (mut flow, step) = create_url(&request("https://e.com", None), "http://h");
    assert!(matches!(step, Step::Generate));
    assert_eq!(insert(flow.generated(62)), "aaaaba");
    let done = flow.inserted(InsertOutcome::Stored("aaaaba".to_string()));
    assert_eq!(reply(done).unwrap(), "http://h/aaaaba");
}

#[test]
fn generated_codes_are_retried_five_times_then_internal() {
    let (mut flow, mut step) = create_url(&request("https://e.com", None), "http://h");
    let mut inserts = 0;
    loop {
        match step {
            Step::Generate => {
                step = flow.generated(1000 + inserts);
            }
            Step::Insert(h) => {
                assert_eq!(h, encode(1000 + inserts));
                inserts += 1;
                step = flow.inserted(InsertOutcome::Conflict);
            }
            Step::Reply(r) => {
                assert!(matches!(r, Err(CreateUrlError::Internal)));
                break;
            }
        }
    }
    assert_eq!(inserts, MAX_RETRIES);
}

#[test]
fn random_codes_have_six_symbols() {
    for _ in 0..200 {
        let (mut flow, step) = create_url(&request("https://e.com", None), "http://h");
        assert!(matches!(step, Step::Generate));
        let code = insert(flow.generate());
        assert_eq!(code.chars().count(), 6);
        assert!(code.chars().all(|c| c.is_ascii_alphanumeric()));
    }
}
