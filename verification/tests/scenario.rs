use anilibrix::operations::{
    get_catalog_paginated, get_catalog_paginated_request, get_full_release_request, get_settings,
    save_settings,
};
use anilibrix::response::Outcome;
use anilibrix::settings::{AppSettings, ConfigState};

#[test]
fn third_remote_page_with_one_release() {
    let mut state = ConfigState::new(AppSettings::default());
    save_settings(
        &mut state,
        AppSettings { api_url: "https://example.test/api/v1".to_string() },
    );
    assert_eq!(get_settings(&state).api_url, "https://example.test/api/v1");

    let request = get_catalog_paginated_request(&state, 2);
    assert_eq!(request.url, "https://example.test/api/v1/anime/catalog/releases?limit=15&page=3");
    assert!(request.query.is_empty());

    let body = r#"{"data":[{"id":1,"name":{"main":"Only","english":null,"alternative":null},"poster":{"src":"/s","preview":"/p","thumbnail":null},"year":2020,"description":null,"genres":[],"player":null}]}"#;
    let list =
        get_catalog_paginated(Outcome::Received { status: 200, body: body.to_string() }).unwrap();
    assert_eq!(list.len(), 1);
    assert_eq!(list[0].id, 1);
    assert_eq!(list[0].name.main, "Only");
    assert_eq!(list[0].year, Some(2020));
}

#[test]
fn full_release_from_start_to_end() {
    let state = ConfigState::new(AppSettings { api_url: "https://example.test/api/v1".to_string() });
    let (first, pending) = get_full_release_request(&state, "9731");
    assert_eq!(first.url, "https://example.test/api/v1/anime/releases/9731");

    let release = Outcome::Received { status: 200, body: "{\"id\": 9731}".to_string() };
    let (second, pending) = pending.release_received(release).unwrap();
    assert_eq!(second.url, "https://example.test/api/v1/anime/franchises/release/9731");

    let franchise = Outcome::Failed { reason: "operation timed out".to_string() };
    let full = pending.franchise_received(franchise);
    let expected: serde_json::Value =
        serde_json::from_str("{\"id\": 9731, \"related_franchise\": []}").unwrap();
    assert_eq!(full, expected);
}

#[test]
fn base_url_is_read_when_the_request_is_planned() {
    let mut state = ConfigState::new(AppSettings { api_url: "https://a.test".to_string() });
    let (first, pending) = get_full_release_request(&state, "1");
    save_settings(&mut state, AppSettings { api_url: "https://b.test".to_string() });
    assert_eq!(first.url, "https://a.test/anime/releases/1");
    let release = Outcome::Received { status: 200, body: "{}".to_string() };
    let (second, _) = pending.release_received(release).unwrap();
    assert_eq!(second.url, "https://a.test/anime/franchises/release/1");
    let (later, _) = get_full_release_request(&state, "1");
    assert_eq!(later.url, "https://b.test/anime/releases/1");
}
