use mcp_server_digitalocean::error::ExtensionError;
use mcp_server_digitalocean::settings::{normalize, resolve, Settings, TOKEN_REQUIRED};

fn settings(token: Option<&str>, services: Option<&str>, endpoint: Option<&str>) -> Settings {
    Settings {
        digitalocean_api_token: token.map(str::to_string),
        services: services.map(str::to_string),
        digitalocean_api_endpoint: endpoint.map(str::to_string),
    }
}

fn required() -> ExtensionError {
    ExtensionError::Validation("digitalocean_api_token is required".to_string())
}

#[test]
fn the_failure_text_names_the_token() {
    assert_eq!(TOKEN_REQUIRED, "digitalocean_api_token is required");
}

#[test]
fn resolve_rejects_a_missing_token() {
    assert_eq!(resolve(settings(None, None, None)), Err(required()));
    assert_eq!(resolve(settings(None, Some("apps"), Some("https://e"))), Err(required()));
}

#[test]
fn resolve_rejects_an_empty_token() {
    assert_eq!(resolve(settings(Some(""), None, None)), Err(required()));
}

#[test]
fn resolve_rejects_a_token_of_whitespace() {
    assert_eq!(resolve(settings(Some("   "), None, None)), Err(required()));
    assert_eq!(resolve(settings(Some("\t\n"), Some("apps"), None)), Err(required()));
    assert_eq!(resolve(settings(Some("\u{3000}"), None, None)), Err(required()));
}

#[test]
fn resolve_keeps_the_token_as_entered() {
    let resolved = resolve(settings(Some("abc123"), None, None)).unwrap();
    assert_eq!(resolved.token(), "abc123");
    assert_eq!(resolved.services(), None);
    assert_eq!(resolved.endpoint(), None);
    let resolved = resolve(settings(Some("  abc 123 "), None, None)).unwrap();
    assert_eq!(resolved.token(), "  abc 123 ");
}

#[test]
fn resolve_trims_the_optional_fields() {
    let resolved = resolve(settings(
        Some("t"),
        Some("  droplets, apps  "),
        Some("\thttps://api.example.com/v2\n"),
    ))
    .unwrap();
    assert_eq!(resolved.token(), "t");
    assert_eq!(resolved.services(), Some("droplets, apps"));
    assert_eq!(resolved.endpoint(), Some("https://api.example.com/v2"));
}

#[test]
fn resolve_drops_blank_optional_fields() {
    let resolved = resolve(settings(Some("t"), Some(""), Some("   "))).unwrap();
    assert_eq!(resolved.services(), None);
    assert_eq!(resolved.endpoint(), None);
    let resolved = resolve(settings(Some("t"), Some(" \t "), Some("e"))).unwrap();
    assert_eq!(resolved.services(), None);
    assert_eq!(resolved.endpoint(), Some("e"));
}

#[test]
fn normalize_trims_or_drops() {
    assert_eq!(normalize(None), None);
    assert_eq!(normalize(Some(String::new())), None);
    assert_eq!(normalize(Some("  ".to_string())), None);
    assert_eq!(normalize(Some(" a b ".to_string())), Some("a b".to_string()));
    assert_eq!(normalize(Some("ab".to_string())), Some("ab".to_string()));
}

#[test]
fn a_validation_failure_shows_its_text() {
    let failure = resolve(settings(None, None, None)).unwrap_err();
    assert_eq!(failure.message(), "digitalocean_api_token is required");
}

#[test]
fn every_failure_shows_its_text_without_its_kind() {
    assert_eq!(ExtensionError::Validation("v".to_string()).message(), "v");
    assert_eq!(ExtensionError::Install("npm failed".to_string()).message(), "npm failed");
    assert_eq!(ExtensionError::Io("no directory".to_string()).message(), "no directory");
    assert_eq!(ExtensionError::Schema("not a map".to_string()).message(), "not a map");
}
