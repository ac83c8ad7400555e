use rocket_oauth2::config::check_endpoint;
use rocket_oauth2::form::serialize_fields;
use rocket_oauth2::text::str_eq;
use rocket_oauth2::{
    AbsoluteUri, Error, ErrorKind, JsonValue, OAuthConfig, Preset, ProviderConfig, TokenResponse,
};

#[test]
fn provider_with_https_endpoints_is_accepted() {
    let provider =
        ProviderConfig::new("https://example.com/authorize", "https://example.com/token").unwrap();
    assert_eq!(provider.auth_uri(), "https://example.com/authorize");
    assert_eq!(provider.token_uri(), "https://example.com/token");
    assert_eq!(provider.clone(), provider);
}

#[test]
fn provider_scheme_is_matched_in_any_case() {
    assert!(ProviderConfig::new("HTTPS://example.com/a", "hTtPs://example.com/t").is_ok());
}

#[test]
fn provider_with_an_http_endpoint_is_refused_unless_allowed() {
    let error =
        ProviderConfig::new("http://localhost:8000/authorize", "https://example.com/token")
            .unwrap_err();
    assert_eq!(error.kind(), ErrorKind::ConfigError);
    assert_eq!(error.detail(), "auth_uri");
    let error =
        ProviderConfig::new("https://example.com/authorize", "http://localhost:8000/token")
            .unwrap_err();
    assert_eq!(error.kind(), ErrorKind::ConfigError);
    assert_eq!(error.detail(), "token_uri");
    let provider = ProviderConfig::new_allowing_http(
        "http://localhost:8000/authorize",
        "http://localhost:8000/token",
    )
    .unwrap();
    assert_eq!(provider.auth_uri(), "http://localhost:8000/authorize");
    assert!(ProviderConfig::new_allowing_http(
        "https://example.com/authorize",
        "HTTP://localhost/token"
    )
    .is_ok());
}

#[test]
fn provider_with_a_relative_or_malformed_endpoint_is_refused() {
    for bad in ["", "/authorize", "example.com/authorize", "ftp://example.com/a", "https", "https:", "https://", "https://exa mple.com/"] {
        let error = ProviderConfig::new(bad, "https://example.com/token").unwrap_err();
        assert_eq!(error.kind(), ErrorKind::ConfigError);
        assert_eq!(error.detail(), "auth_uri");
        let error = ProviderConfig::new_allowing_http("https://example.com/a", bad).unwrap_err();
        assert_eq!(error.kind(), ErrorKind::ConfigError);
        assert_eq!(error.detail(), "token_uri");
    }
}

#[test]
fn endpoint_check() {
    assert!(check_endpoint("https://example.com/", false));
    assert!(check_endpoint("https://example.com/", true));
    assert!(!check_endpoint("http://example.com/", false));
    assert!(check_endpoint("http://example.com/", true));
    assert!(!check_endpoint("https://", true));
    assert!(!check_endpoint("httpx://example.com/", true));
    assert!(!check_endpoint(" https://example.com/", true));
}

#[test]
fn presets_by_name() {
    assert_eq!(Preset::from_name("GitHub"), Some(Preset::GitHub));
    assert_eq!(Preset::from_name("Google"), Some(Preset::Google));
    assert_eq!(Preset::from_name("Microsoft"), Some(Preset::Microsoft));
    assert_eq!(Preset::from_name("Discord"), Some(Preset::Discord));
    assert_eq!(Preset::from_name("Reddit"), Some(Preset::Reddit));
    assert_eq!(Preset::from_name("Yahoo"), Some(Preset::Yahoo));
    assert_eq!(Preset::from_name("github"), None);
    assert_eq!(Preset::from_name("GitHub "), None);
    assert_eq!(Preset::from_name(""), None);
    assert!(ProviderConfig::named("Nobody").is_none());
}

#[test]
fn preset_endpoints() {
    let github = ProviderConfig::named("GitHub").unwrap();
    assert_eq!(github.auth_uri(), "https://github.com/login/oauth/authorize");
    assert_eq!(github.token_uri(), "https://github.com/login/oauth/access_token");
    let google = ProviderConfig::from_preset(Preset::Google);
    assert_eq!(google.auth_uri(), "https://accounts.google.com/o/oauth2/v2/auth");
    assert_eq!(google.token_uri(), "https://www.googleapis.com/oauth2/v4/token");
    let microsoft = ProviderConfig::from_preset(Preset::Microsoft);
    assert_eq!(
        microsoft.auth_uri(),
        "https://login.microsoftonline.com/common/oauth2/v2.0/authorize"
    );
    assert_eq!(
        microsoft.token_uri(),
        "https://login.microsoftonline.com/common/oauth2/v2.0/token"
    );
}

#[test]
fn every_preset_passes_the_endpoint_check() {
    for preset in [
        Preset::Discord,
        Preset::GitHub,
        Preset::Google,
        Preset::Microsoft,
        Preset::Reddit,
        Preset::Yahoo,
    ] {
        assert!(check_endpoint(preset.auth_uri(), false));
        assert!(check_endpoint(preset.token_uri(), false));
        let made = ProviderConfig::new(preset.auth_uri(), preset.token_uri()).unwrap();
        assert_eq!(made, ProviderConfig::from_preset(preset));
    }
}

#[test]
fn config_keeps_what_it_was_given() {
    let provider = ProviderConfig::from_preset(Preset::GitHub);
    let config = OAuthConfig::new(
        provider.clone(),
        "id".to_string(),
        "secret".to_string(),
        Some("https://app.example/cb".to_string()),
    )
    .unwrap();
    assert_eq!(config.client_id(), "id");
    assert_eq!(config.client_secret(), "secret");
    assert_eq!(config.redirect_uri(), Some("https://app.example/cb"));
    assert_eq!(*config.provider(), provider);
    assert_eq!(config.clone(), config);
    let config = OAuthConfig::new(provider, "id".to_string(), "secret".to_string(), None).unwrap();
    assert_eq!(config.redirect_uri(), None);
    assert_eq!(config.clone(), config);
}

#[test]
fn config_without_client_id_or_secret_is_refused() {
    let provider = ProviderConfig::from_preset(Preset::GitHub);
    let error = OAuthConfig::new(provider.clone(), String::new(), "secret".to_string(), None)
        .unwrap_err();
    assert_eq!(error.kind(), ErrorKind::ConfigError);
    assert_eq!(error.detail(), "client_id");
    let error = OAuthConfig::new(provider.clone(), String::new(), String::new(), None).unwrap_err();
    assert_eq!(error.detail(), "client_id");
    let error =
        OAuthConfig::new(provider, "id".to_string(), String::new(), None).unwrap_err();
    assert_eq!(error.kind(), ErrorKind::ConfigError);
    assert_eq!(error.detail(), "client_secret");
}

#[test]
fn absolute_uri_is_checked() {
    let uri = AbsoluteUri::parse("https://example.com/a?b=c".to_string()).unwrap();
    assert_eq!(uri.as_str(), "https://example.com/a?b=c");
    assert_eq!(uri.clone().into_string(), "https://example.com/a?b=c");
    for bad in ["", "/a/b", "a b", "https://example.com/a#frag"] {
        let error = AbsoluteUri::parse(bad.to_string()).unwrap_err();
        assert_eq!(error.kind(), ErrorKind::InvalidUri);
        assert_eq!(error.detail(), bad);
    }
}

#[test]
fn form_body_of_fields() {
    let fields = |pairs: &[(&str, &str)]| -> Vec<(String, String)> {
        pairs
            .iter()
            .map(|(name, value)| (name.to_string(), value.to_string()))
            .collect()
    };
    assert_eq!(serialize_fields(&fields(&[])), "");
    assert_eq!(serialize_fields(&fields(&[("a", "b")])), "a=b");
    assert_eq!(serialize_fields(&fields(&[("", "")])), "=");
    assert_eq!(serialize_fields(&fields(&[("", ""), ("", "")])), "=&=");
    assert_eq!(
        serialize_fields(&fields(&[("a b", "c&d"), ("e=f", "g+h"), ("\u{e9}", "\u{1f600}")])),
        "a+b=c%26d&e%3Df=g%2Bh&%C3%A9=%F0%9F%98%80"
    );
    assert_eq!(
        serialize_fields(&fields(&[("safe", "AZaz09*-._"), ("not", "~!'()/\n\u{7f}")])),
        "safe=AZaz09*-._&not=%7E%21%27%28%29%2F%0A%7F"
    );
}

#[test]
fn strings_are_compared_character_by_character() {
    assert!(str_eq("", ""));
    assert!(str_eq("abc", "abc"));
    assert!(str_eq("\u{e9}\u{1f600}", "\u{e9}\u{1f600}"));
    assert!(!str_eq("abc", "abd"));
    assert!(!str_eq("abc", "ab"));
    assert!(!str_eq("e\u{301}", "\u{e9}"));
}

#[test]
fn json_members_are_found_by_name() {
    let document = JsonValue::parse(br#"{"a":"x","b":7,"c":{"a":"inner"},"d":18446744073709551615}"#)
        .unwrap();
    assert_eq!(document.get("a"), Some(&JsonValue::Text("x".to_string())));
    assert_eq!(document.get("a").unwrap().as_text(), Some("x"));
    assert_eq!(document.get("a").unwrap().as_integer(), None);
    assert_eq!(document.get("b").unwrap().as_integer(), Some(7));
    assert_eq!(document.get("b").unwrap().as_text(), None);
    assert_eq!(document.get("c").unwrap().get("a").unwrap().as_text(), Some("inner"));
    assert_eq!(
        document.get("d"),
        Some(&JsonValue::Number {
            text: "18446744073709551615".to_string(),
            integer: None
        })
    );
    assert_eq!(document.get("e"), None);
    assert_eq!(JsonValue::Null.get("a"), None);
    assert!(JsonValue::parse(b"{").is_err());
    assert!(JsonValue::parse(b"{} x").is_err());
    assert_eq!(JsonValue::parse(b" null ").unwrap(), JsonValue::Null);
    assert_eq!(document.clone(), document);
}

#[test]
fn first_member_of_a_name_counts() {
    let document = JsonValue::Object(vec![
        ("k".to_string(), JsonValue::Text("first".to_string())),
        ("k".to_string(), JsonValue::Text("second".to_string())),
    ]);
    assert_eq!(document.get("k").unwrap().as_text(), Some("first"));
}

#[test]
fn token_response_from_a_document() {
    let document = JsonValue::Object(vec![
        ("access_token".to_string(), JsonValue::Text("abc".to_string())),
        ("token_type".to_string(), JsonValue::Text("bearer".to_string())),
        (
            "expires_in".to_string(),
            JsonValue::Number {
                text: "60".to_string(),
                integer: Some(60),
            },
        ),
    ]);
    let response = TokenResponse::from_json(document).unwrap();
    assert_eq!(response.access_token(), "abc");
    assert_eq!(response.token_type(), "bearer");
    assert_eq!(response.expires_in(), Some(60));
    assert_eq!(response.as_value().get("token_type").unwrap().as_text(), Some("bearer"));
    struct GitHub;
    let cast: TokenResponse<GitHub> = response.cast();
    assert_eq!(cast.access_token(), "abc");
    assert_eq!(cast.expires_in(), Some(60));

    let error: Error = TokenResponse::from_json(JsonValue::Null).unwrap_err();
    assert_eq!(error.kind(), ErrorKind::ExchangeFailure);
    assert_eq!(error.detail(), "access_token");
}
