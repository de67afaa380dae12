use lokalise_keys::create::{
    build_create_payload, classify_create_response, find_project, select_project, ErrorBody,
    Project, TranslationPayload,
};
use lokalise_keys::error::SyncError;
use lokalise_keys::input::{parse_keys, KeyToAdd, PluralForms, RawKey, Translation};
use lokalise_keys::listing::{KeyListing, KeyName, PAGE_LIMIT};
use lokalise_keys::reconcile::{pre_check, post_check, prepare_create, CreatePlan, Report};

fn s(t: &str) -> String {
    t.to_string()
}

fn uniform(name: &str) -> KeyName {
    KeyName { ios: s(name), android: s(name), web: s(name), other: s(name) }
}

fn page(prefix: &str, n: usize) -> Vec<KeyName> {
    (0..n).map(|i| uniform(&format!("{}{}", prefix, i))).collect()
}

fn singular(key: &str, text: &str) -> KeyToAdd {
    KeyToAdd { key: s(key), translation: Translation::Singular(s(text)), tags: vec![] }
}

fn project() -> Project {
    Project { id: s("7842"), name: s("app"), base_language_iso: s("en") }
}

fn raw(key: &str, text: Option<&str>, forms: Option<(&str, &str)>) -> RawKey {
    RawKey {
        key: s(key),
        translation: text.map(s),
        translations: forms.map(|(a, b)| PluralForms { singular: s(a), plural: s(b) }),
        tags: None,
    }
}

/// Runs a listing over the given pages; returns the requests made and the result.
fn run_listing(pages: Vec<Vec<KeyName>>) -> (Vec<usize>, Result<Vec<String>, SyncError>) {
    let mut listing = KeyListing::new();
    let mut requested = vec![];
    let mut pages = pages.into_iter();
    while let Some(p) = listing.next_page() {
        requested.push(p);
        let keys = pages.next().unwrap_or_default();
        if let Err(e) = listing.on_page(&keys) {
            return (requested, Err(e));
        }
    }
    (requested, Ok(listing.into_names()))
}

#[test]
fn singular_form_is_accepted() {
    let keys = parse_keys(vec![raw("hello", Some("Hello"), None)]).unwrap();
    assert_eq!(keys.len(), 1);
    assert_eq!(keys[0].key, "hello");
    assert_eq!(keys[0].translation, Translation::Singular(s("Hello")));
    assert!(keys[0].tags.is_empty());
    assert!(!keys[0].is_plural());
}

#[test]
fn plural_form_is_accepted_with_tags() {
    let mut r = raw("apples", None, Some(("apple", "apples")));
    r.tags = Some(vec![s("fruit")]);
    let keys = parse_keys(vec![r]).unwrap();
    assert_eq!(
        keys[0].translation,
        Translation::Plural { singular: s("apple"), plural: s("apples") }
    );
    assert_eq!(keys[0].tags, vec![s("fruit")]);
    assert!(keys[0].is_plural());
}

#[test]
fn both_forms_are_rejected() {
    let r = parse_keys(vec![raw("a", Some("x"), None), raw("b", Some("x"), Some(("y", "z")))]);
    assert_eq!(r, Err(SyncError::BothTranslations { key: s("b") }));
}

#[test]
fn neither_form_is_rejected() {
    let r = parse_keys(vec![raw("a", None, None), raw("b", Some("x"), Some(("y", "z")))]);
    assert_eq!(r, Err(SyncError::MissingTranslation { key: s("a") }));
}

#[test]
fn three_pages_take_three_requests() {
    let (requests, names) =
        run_listing(vec![page("a", 1000), page("b", 1000), page("c", 400)]);
    assert_eq!(requests, vec![1, 2, 3]);
    assert_eq!(names.unwrap().len(), 2400);
}

#[test]
fn overlapping_pages_are_deduplicated() {
    let (requests, names) =
        run_listing(vec![page("a", 1000), page("a", 1000), page("a", 400)]);
    assert_eq!(requests, vec![1, 2, 3]);
    assert_eq!(names.unwrap().len(), 1000);
}

#[test]
fn full_page_asks_for_one_more() {
    assert_eq!(PAGE_LIMIT, 1000);
    let (requests, names) = run_listing(vec![page("a", 1000)]);
    assert_eq!(requests, vec![1, 2]);
    assert_eq!(names.unwrap().len(), 1000);
}

#[test]
fn empty_project_takes_one_request() {
    let (requests, names) = run_listing(vec![vec![]]);
    assert_eq!(requests, vec![1]);
    assert!(names.unwrap().is_empty());
}

#[test]
fn differing_platform_names_fail_the_listing() {
    let odd = KeyName { ios: s("a"), android: s("b"), web: s("a"), other: s("a") };
    let mut listing = KeyListing::new();
    listing.on_page(&vec![uniform("x")]).unwrap();
    let before = listing.clone();
    let mut second = vec![uniform("y")];
    second.push(odd);
    assert_eq!(listing.on_page(&second), Err(SyncError::PlatformNameMismatch));
    assert_eq!(listing, before);
    let (_, r) = run_listing(vec![vec![KeyName {
        ios: s("a"),
        android: s("b"),
        web: s("a"),
        other: s("a"),
    }]]);
    assert_eq!(r, Err(SyncError::PlatformNameMismatch));
}

#[test]
fn existing_key_is_a_duplicate() {
    let requested = vec![singular("welcome", "Welcome"), singular("greeting", "Hi")];
    let existing = vec![s("farewell"), s("greeting")];
    assert_eq!(
        pre_check(&requested, &existing),
        Err(SyncError::DuplicateKey { key: s("greeting") })
    );
    assert_eq!(
        prepare_create(&project(), &requested, &existing),
        Err(SyncError::DuplicateKey { key: s("greeting") })
    );
}

#[test]
fn first_duplicate_is_named() {
    let requested = vec![singular("b", "B"), singular("a", "A")];
    let existing = vec![s("a"), s("b")];
    assert_eq!(pre_check(&requested, &existing), Err(SyncError::DuplicateKey { key: s("b") }));
}

#[test]
fn new_keys_pass_the_pre_check() {
    let requested = vec![singular("greeting", "Hi")];
    assert_eq!(pre_check(&requested, &vec![s("greetings")]), Ok(()));
}

#[test]
fn rerun_with_superset_is_refused() {
    let first = vec![singular("one", "1"), singular("two", "2")];
    let created = vec![uniform("one"), uniform("two")];
    let report = post_check(&first, &created);
    assert!(report.is_success());
    let existing = vec![s("one"), s("two")];
    let second = vec![singular("zero", "0"), singular("one", "1"), singular("two", "2")];
    assert_eq!(pre_check(&second, &existing), Err(SyncError::DuplicateKey { key: s("one") }));
}

#[test]
fn empty_input_plans_no_request() {
    let plan = prepare_create(&project(), &vec![], &vec![s("a")]).unwrap();
    assert_eq!(plan, CreatePlan::NothingToDo);
    let report = post_check(&vec![], &vec![uniform("a")]);
    assert_eq!(report, Report::NothingToDo);
    assert!(report.is_success());
    assert_eq!(report.outcome(), Ok(()));
}

#[test]
fn unauthorized_error_gets_its_own_variant() {
    let body = ErrorBody { code: 401, message: s("Unauthorized") };
    assert_eq!(classify_create_response(None, Some(body)), Err(SyncError::Unauthorized));
}

#[test]
fn other_remote_error_is_passed_on() {
    let body = ErrorBody { code: 400, message: s("Bad request") };
    assert_eq!(
        classify_create_response(None, Some(body)),
        Err(SyncError::Remote { code: 400, message: s("Bad request") })
    );
}

#[test]
fn both_readings_are_ambiguous() {
    let body = ErrorBody { code: 500, message: s("oops") };
    assert_eq!(
        classify_create_response(Some(vec![]), Some(body)),
        Err(SyncError::AmbiguousResponse)
    );
}

#[test]
fn no_reading_is_unparseable() {
    assert_eq!(classify_create_response(None, None), Err(SyncError::UnparseableResponse));
}

#[test]
fn success_reading_gives_the_keys() {
    let keys = vec![uniform("a")];
    assert_eq!(classify_create_response(Some(keys.clone()), None), Ok(keys));
}

#[test]
fn two_of_three_confirmed_is_a_partial_failure() {
    let requested = vec![singular("a", "A"), singular("b", "B"), singular("c", "C")];
    let response = vec![uniform("c"), uniform("a")];
    let created = classify_create_response(Some(response), None).unwrap();
    let report = post_check(&requested, &created);
    assert_eq!(
        report,
        Report::Outcomes { created: vec![s("a"), s("c")], not_created: vec![s("b")] }
    );
    assert!(!report.is_success());
    assert_eq!(report.outcome(), Err(SyncError::PartialFailure));
}

#[test]
fn confirmation_goes_by_the_ios_name() {
    let requested = vec![singular("a", "A")];
    let created = vec![KeyName { ios: s("x"), android: s("a"), web: s("a"), other: s("a") }];
    assert_eq!(
        post_check(&requested, &created),
        Report::Outcomes { created: vec![], not_created: vec![s("a")] }
    );
}

#[test]
fn payload_follows_the_translation_form() {
    let keys = vec![
        KeyToAdd {
            key: s("hello"),
            translation: Translation::Singular(s("Hello")),
            tags: vec![s("home")],
        },
        KeyToAdd {
            key: s("apples"),
            translation: Translation::Plural { singular: s("apple"), plural: s("apples") },
            tags: vec![],
        },
    ];
    let payload = build_create_payload(&project(), &keys);
    assert_eq!(payload.len(), 2);
    assert_eq!(payload[0].key_name, "hello");
    assert_eq!(payload[0].language_iso, "en");
    assert_eq!(payload[0].translation, TranslationPayload::Text(s("Hello")));
    assert!(!payload[0].is_plural);
    assert_eq!(payload[0].tags, vec![s("home")]);
    assert_eq!(payload[0].platforms, vec![s("ios"), s("android"), s("web"), s("other")]);
    assert_eq!(
        payload[1].translation,
        TranslationPayload::Forms { one: s("apple"), other: s("apples") }
    );
    assert!(payload[1].is_plural);
    match prepare_create(&project(), &keys, &vec![]) {
        Ok(CreatePlan::Send(p)) => assert_eq!(p, payload),
        other => panic!("unexpected plan {:?}", other),
    }
}

#[test]
fn project_is_found_by_exact_name() {
    let projects = vec![
        Project { id: s("1"), name: s("App"), base_language_iso: s("en") },
        Project { id: s("2"), name: s("app"), base_language_iso: s("de") },
        Project { id: s("3"), name: s("app"), base_language_iso: s("fr") },
    ];
    assert_eq!(find_project(&projects, &s("app")), Some(1));
    assert_eq!(find_project(&projects, &s("ap")), None);
    assert_eq!(select_project(projects.clone(), &s("app")).unwrap().id, "2");
    assert_eq!(
        select_project(projects, &s("web")),
        Err(SyncError::ProjectNotFound { name: s("web") })
    );
}
