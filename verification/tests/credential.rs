use weather_underground::Error;
use weather_underground::cred::{parse_api_key, CredentialStore};

#[test]
fn parsing_existing_api_key() {
    let page = "<!DOCTYPE html><html><head><title>Weather</title>\n<script>window.config={\"process\":{\"env\":{\n\"deployment\":\"production\",\n\"apiUrl\":\"https://api.weather.com/v2?apiKey=6532d6454b8aa370768e63d6ba5a832e&format=json\"\n}}};</script></head><body>forecast</body></html>";
    let result = parse_api_key(page);
    assert!(result.is_ok());
    let result = result.unwrap();
    assert_eq!(result, "6532d6454b8aa370768e63d6ba5a832e");
}

#[test]
fn parsing_missing_api_key() {
    let result = parse_api_key("whatever");
    assert!(result.is_err());
    let result = result.unwrap_err();
    assert!(matches!(result, Error::ApiKeyNotFound));
}

#[test]
fn credential_extracted_from_page_body() {
    let result = parse_api_key("...apiKey=abc123def456...");
    assert_eq!(result.unwrap(), "abc123def456");
}

#[test]
fn credential_missing_marker_is_an_error() {
    let result = parse_api_key("<html><body>apiKey is set elsewhere</body></html>");
    assert!(matches!(result, Err(Error::ApiKeyNotFound)));
}

#[test]
fn credential_marker_needs_a_token() {
    // The marker alone, with no lowercase alphanumeric run after it,
    // does not count; a later complete marker is used instead.
    let result = parse_api_key("apiKey=&noise apiKey=zz9");
    assert_eq!(result.unwrap(), "zz9");
}

#[test]
fn credential_token_stops_at_first_other_character() {
    let result = parse_api_key("apiKey=abc123DEF");
    assert_eq!(result.unwrap(), "abc123");
}

#[test]
fn store_fetches_once_then_serves_from_cache() {
    let mut store = CredentialStore::new();
    let mut fetches: u32 = 0;

    // First get: the store is empty, so the caller fetches the page once
    // and hands it over.
    let key = match store.cached() {
        Some(k) => k,
        None => {
            fetches += 1;
            store
                .store_fetched("<html>apiKey=0123456789abcdef</html>")
                .unwrap()
        }
    };
    assert_eq!(key, "0123456789abcdef");
    assert_eq!(fetches, 1);

    // Every later get is answered from the cache: no further fetch.
    for _ in 0..5 {
        let key = match store.cached() {
            Some(k) => k,
            None => {
                fetches += 1;
                store.store_fetched("unused").unwrap()
            }
        };
        assert_eq!(key, "0123456789abcdef");
    }
    assert_eq!(fetches, 1);
    assert!(!store.needs_fetch());
}

#[test]
fn invalidation_forces_a_new_bootstrap() {
    let mut store = CredentialStore::new();
    store.store_fetched("apiKey=aaa111").unwrap();
    assert!(!store.needs_fetch());
    store.invalidate();
    assert!(store.needs_fetch());
    assert!(store.cached().is_none());
    let key = store.store_fetched("apiKey=bbb222").unwrap();
    assert_eq!(key, "bbb222");
}

#[test]
fn store_stays_empty_on_a_bad_page() {
    let mut store = CredentialStore::new();
    let result = store.store_fetched("no marker here");
    assert!(matches!(result, Err(Error::ApiKeyNotFound)));
    // The failure is not cached: the next get fetches again.
    assert!(store.needs_fetch());
    let result = store.store_fetched("now apiKey=ff00aa is there");
    assert_eq!(result.unwrap(), "ff00aa");
    assert!(!store.needs_fetch());
}
