use rss_trans::cache::{basic_auth_header, hashed_cache_key};
use rss_trans::text::trim_spaces;
use rss_trans::translate::{jwt_claims, pair_translations, TranslateProvider,
    TranslateProviderInitConfig};

#[test]
fn cache_key_is_the_hex_sha256_of_the_title() {
    assert_eq!(
        hashed_cache_key("abc"),
        "ba7816bf8f01cfea414140de5dae2223b00361a396177a9cb410ff61f20015ad"
    );
    assert_eq!(
        hashed_cache_key(""),
        "e3b0c44298fc1c149afbf4c8996fb92427ae41e4649b934ca495991b7852b855"
    );
    assert_eq!(hashed_cache_key("Hello").len(), 64);
}

#[test]
fn webdav_authorization_header_is_basic_auth() {
    assert_eq!(basic_auth_header("user", "pass"), "Basic dXNlcjpwYXNz");
    assert_eq!(
        basic_auth_header("aladdin", "opensesame"),
        "Basic YWxhZGRpbjpvcGVuc2VzYW1l"
    );
}

#[test]
fn trimming_strips_surrounding_whitespace_only() {
    assert_eq!(trim_spaces("  Bonjour\t\r\n"), "Bonjour");
    assert_eq!(trim_spaces("a b"), "a b");
    assert_eq!(trim_spaces("   "), "");
    assert_eq!(trim_spaces(""), "");
    assert_eq!(trim_spaces("déjà vu "), "déjà vu");
}

#[test]
fn trimming_strips_unicode_whitespace_as_the_standard_library_does() {
    // No-break space, ideographic space, line separator.
    let padded = "\u{00A0}\u{3000}タイトル\u{2028}\u{205F}";
    assert_eq!(trim_spaces(padded), padded.trim());
    assert_eq!(trim_spaces(padded), "タイトル");
    // An inner ideographic space stays.
    assert_eq!(trim_spaces("\u{3000}a\u{3000}b\u{3000}"), "a\u{3000}b");
}

#[test]
fn token_request_claims_expire_after_an_hour() {
    let claims = jwt_claims("svc@example.iam".to_string(), 1_000_000);
    assert_eq!(claims.iss, "svc@example.iam");
    assert_eq!(claims.scope, "https://www.googleapis.com/auth/cloud-translation");
    assert_eq!(claims.aud, "https://oauth2.googleapis.com/token");
    assert_eq!(claims.iat, 1_000_000);
    assert_eq!(claims.exp, 1_003_600);
}

#[test]
fn a_fresh_provider_refreshes_and_a_stored_token_is_reused_until_expiry() {
    let mut provider = TranslateProvider::new(TranslateProviderInitConfig {
        project_id: "project".to_string(),
        service_account_json: "/etc/svc.json".to_string(),
    });
    assert_eq!(provider.project_id, "project");
    assert!(!provider.token_is_fresh(0));
    provider.store_token("tok".to_string(), 100);
    assert!(provider.token_is_fresh(99));
    assert!(!provider.token_is_fresh(100));
    assert_eq!(provider.access_token, "tok");
}

#[test]
fn pairing_keeps_order_and_duplicates() {
    let sources = vec!["Hello".to_string(), "Hello".to_string(), "World".to_string()];
    let translated = vec!["Bonjour".to_string(), "Salut".to_string(), "Monde".to_string()];
    let pairs = pair_translations(&sources, &translated);
    assert_eq!(pairs.len(), 3);
    assert_eq!(pairs[0].raw_text, "Hello");
    assert_eq!(pairs[0].translated, "Bonjour");
    assert_eq!(pairs[1].raw_text, "Hello");
    assert_eq!(pairs[1].translated, "Salut");
    assert_eq!(pairs[2].raw_text, "World");
    assert_eq!(pairs[2].translated, "Monde");
}

#[test]
fn pairing_stops_at_the_shorter_list() {
    let sources = vec!["Hello".to_string(), "World".to_string()];
    let translated = vec!["Bonjour".to_string()];
    let pairs = pair_translations(&sources, &translated);
    assert_eq!(pairs.len(), 1);
    assert_eq!(pairs[0].raw_text, "Hello");
}
