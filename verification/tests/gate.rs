//! End-to-end tests of the dispatchers and the authorization gate.

use torznab_toolkit::api::{handle_caps, handle_search, SearchForm};
use torznab_toolkit::caps_xml::encode_caps;
use torznab_toolkit::data::{AuthProvider, Caps, Config, SearchParameters, SearchProvider, Torrent};
use torznab_toolkit::dummy::{create_empty_config, DummyAuth, DummySearch};

fn empty_form() -> SearchForm {
    SearchForm {
        q: None,
        apikey: None,
        cat: None,
        attrs: None,
        extended: None,
        offset: None,
        limit: None,
    }
}

/// A search hook that must never be reached: it panics when called.
struct PanickingSearch;

impl SearchProvider for PanickingSearch {
    fn search(&self, _parameters: SearchParameters) -> Result<Vec<Torrent>, String> {
        panic!("the search hook must not be invoked");
    }
}

/// A credential check that rejects every key.
struct DenyingAuth;

impl AuthProvider for DenyingAuth {
    fn check(&self, _apikey: String) -> Result<bool, String> {
        Ok(false)
    }
}

/// A credential check that itself fails.
struct FailingAuth;

impl AuthProvider for FailingAuth {
    fn check(&self, _apikey: String) -> Result<bool, String> {
        Err("database unreachable".to_string())
    }
}

/// A search hook that returns a record without any locator.
struct MalformedSearch;

impl SearchProvider for MalformedSearch {
    fn search(&self, _parameters: SearchParameters) -> Result<Vec<Torrent>, String> {
        Ok(vec![Torrent {
            title: "broken".to_string(),
            description: None,
            size: 1,
            category_ids: vec![],
            torrent_file_url: None,
            magnet_uri: None,
            other_attributes: None,
        }])
    }
}

/// A search hook that reports a host-side error.
struct ErroringSearch;

impl SearchProvider for ErroringSearch {
    fn search(&self, _parameters: SearchParameters) -> Result<Vec<Torrent>, String> {
        Err("index offline".to_string())
    }
}

fn caps_of_empty_config() -> Caps {
    create_empty_config().caps
}

#[test]
fn missing_apikey_is_refused_before_the_search_hook() {
    let conf: Config<PanickingSearch, DummyAuth> = Config {
        search: PanickingSearch,
        auth: Some(DummyAuth),
        caps: caps_of_empty_config(),
    };
    let r = handle_search(&conf, &empty_form(), "search");
    assert_eq!(r.status, 401);
    assert_eq!(r.body, "401 Unauthorized");
}

#[test]
fn rejected_apikey_is_refused_before_the_search_hook() {
    let conf: Config<PanickingSearch, DenyingAuth> = Config {
        search: PanickingSearch,
        auth: Some(DenyingAuth),
        caps: caps_of_empty_config(),
    };
    let mut form = empty_form();
    form.apikey = Some("SECRET-REDACTED".to_string());
    let r = handle_search(&conf, &form, "search");
    assert_eq!(r.status, 401);
    assert_eq!(r.body, "401 Unauthorized");
}

#[test]
fn failing_check_is_an_internal_error_not_a_denial() {
    let conf: Config<PanickingSearch, FailingAuth> = Config {
        search: PanickingSearch,
        auth: Some(FailingAuth),
        caps: caps_of_empty_config(),
    };
    let mut form = empty_form();
    form.apikey = Some("SECRET-REDACTED".to_string());
    let r = handle_search(&conf, &form, "search");
    assert_eq!(r.status, 500);
}

#[test]
fn no_auth_configured_allows_without_key() {
    let conf: Config<DummySearch, DummyAuth> = Config {
        search: DummySearch,
        auth: None,
        caps: caps_of_empty_config(),
    };
    let r = handle_search(&conf, &empty_form(), "search");
    assert_eq!(r.status, 200);
    assert!(r.body.contains("<item><title>totally normal torrent</title>"));
}

#[test]
fn accepted_apikey_reaches_the_search_hook() {
    let conf = create_empty_config();
    let mut form = empty_form();
    form.apikey = Some("SECRET-REDACTED".to_string());
    let r = handle_search(&conf, &form, "search");
    assert_eq!(r.status, 200);
    assert!(r.body.ends_with("</channel></rss>"));
}

#[test]
fn search_hook_error_maps_to_500() {
    let conf: Config<ErroringSearch, DummyAuth> = Config {
        search: ErroringSearch,
        auth: None,
        caps: caps_of_empty_config(),
    };
    let r = handle_search(&conf, &empty_form(), "search");
    assert_eq!(r.status, 500);
    assert_eq!(r.body, "500 Internal Server Error");
}

#[test]
fn record_without_locator_maps_to_500_with_no_partial_document() {
    let conf: Config<MalformedSearch, DummyAuth> = Config {
        search: MalformedSearch,
        auth: None,
        caps: caps_of_empty_config(),
    };
    let r = handle_search(&conf, &empty_form(), "search");
    assert_eq!(r.status, 500);
    assert!(!r.body.contains("<rss"));
}

#[test]
fn caps_endpoint_is_public_and_renders_the_document() {
    // authorization is configured, yet the capabilities endpoint needs
    // no credential
    let conf = create_empty_config();
    assert!(conf.auth.is_some());
    let r = handle_caps(&conf);
    assert_eq!(r.status, 200);
    assert_eq!(r.body, encode_caps(&conf.caps));
}
