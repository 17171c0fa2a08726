use discord_mute::auth::{
    authorize_and_save_token, is_success, token_form, AuthEvent, AuthStep, Authorization,
    Endpoint, Granted, HttpError,
};
use discord_mute::config::{
    config_dir, config_path, load_config, save_config, tidy, validate_config, AppConfig,
    ConfigError,
};
use discord_mute::token::{
    check_token, ensure_required_scopes, existing_token_path, judge_expiry, load_token,
    required_scopes, save_token, token_candidates, token_path, token_to_load, Moment, TokenData,
    TokenError, REQUIRED_SCOPES,
};

const EXPIRY: i128 = 1_577_934_245_000_000_000;

fn config(id: &str, secret: &str) -> AppConfig {
    AppConfig { client_id: id.to_string(), client_secret: secret.to_string() }
}

fn some(text: &str) -> Option<String> {
    Some(text.to_string())
}

fn bytes(text: &str) -> Option<Vec<u8>> {
    Some(text.as_bytes().to_vec())
}

fn strings(texts: &[&str]) -> Vec<String> {
    texts.iter().map(|text| text.to_string()).collect()
}

fn token(scopes: &[&str], expires_at: Option<&str>) -> TokenData {
    TokenData {
        access_token: "secret".to_string(),
        scopes: strings(scopes),
        expires_at: expires_at.map(|text| text.to_string()),
    }
}

#[test]
fn config_comes_from_file_or_environment() {
    let loaded = load_config(Some(config("a", "b")), None, None, "p").unwrap();
    assert_eq!((loaded.client_id.as_str(), loaded.client_secret.as_str()), ("a", "b"));
    let loaded = load_config(Some(config("a", "b")), some("x"), None, "p").unwrap();
    assert_eq!((loaded.client_id.as_str(), loaded.client_secret.as_str()), ("x", "b"));
    let loaded = load_config(None, some("x"), some("y"), "p").unwrap();
    assert_eq!((loaded.client_id.as_str(), loaded.client_secret.as_str()), ("x", "y"));
}

#[test]
fn missing_config_says_what_to_do() {
    let error = load_config(None, None, None, "/c/config.json").unwrap_err();
    assert_eq!(
        error.message(),
        "missing config at /c/config.json; run `cargo run -- setup` first"
    );
}

#[test]
fn blank_credentials_are_refused() {
    let error = load_config(None, None, some("y"), "p").unwrap_err();
    assert!(matches!(error, ConfigError::EmptyClientId));
    assert_eq!(error.message(), "Discord Client ID cannot be empty");
    let error = load_config(Some(config("a", " \t\n")), None, None, "p").unwrap_err();
    assert!(matches!(error, ConfigError::EmptyClientSecret));
    assert_eq!(error.message(), "Discord Client Secret cannot be empty");
    assert!(validate_config(&config("\u{a0}\u{3000}", "b")).is_err());
    assert!(validate_config(&config(" a ", "b")).is_ok());
}

#[test]
fn saved_credentials_are_tidy() {
    let tidied = tidy("  id\n", "\u{2003}sec ret\t");
    assert_eq!((tidied.client_id.as_str(), tidied.client_secret.as_str()), ("id", "sec ret"));
    assert_eq!(save_config(&tidied, "{}").unwrap(), "{}\n");
    assert!(save_config(&tidy("  ", "x"), "{}").is_err());
    let again = tidy(&tidied.client_id, &tidied.client_secret);
    assert_eq!(again.client_secret, tidied.client_secret);
    let loaded = load_config(Some(tidied), None, None, "p").unwrap();
    assert_eq!(loaded.client_id, "id");
}

#[test]
fn saved_config_is_loaded_with_its_blanks() {
    let padded = config(" id ", "\tsecret\n");
    assert!(save_config(&padded, "{}").is_ok());
    let loaded = load_config(Some(padded), None, None, "p").unwrap();
    assert_eq!((loaded.client_id.as_str(), loaded.client_secret.as_str()), (" id ", "\tsecret\n"));
}

#[test]
fn saved_token_is_found_and_loaded() {
    let places = token_candidates(None, bytes("/xdg"), None);
    let saved = token_path(None, bytes("/xdg"), None);
    assert_eq!(token_to_load(&places, &|path: &Vec<u8>| *path == saved || path.len() < 20), 0);
    let loaded = load_token(token(&REQUIRED_SCOPES, Some("9998-01-01T00:00:00+01:00"))).unwrap();
    assert_eq!(loaded.scopes, strings(&REQUIRED_SCOPES));
    assert_eq!(loaded.expires_at.as_deref(), Some("9998-01-01T00:00:00+01:00"));
}

#[test]
fn config_directory_by_environment() {
    assert_eq!(config_dir(bytes("/xdg"), bytes("/home/u")), b"/xdg/discord-mute-rs");
    assert_eq!(config_dir(None, bytes("/home/u")), b"/home/u/.config/discord-mute-rs");
    assert_eq!(config_dir(None, None), b"./.config/discord-mute-rs");
    assert_eq!(config_dir(bytes(""), None), b"discord-mute-rs");
    assert_eq!(config_path(bytes("/xdg/"), None), b"/xdg/discord-mute-rs/config.json");
}

#[test]
fn required_scopes_are_three() {
    assert_eq!(REQUIRED_SCOPES, ["rpc", "rpc.voice.read", "rpc.voice.write"]);
    assert_eq!(required_scopes(), strings(&REQUIRED_SCOPES));
}

#[test]
fn missing_scopes_are_listed_in_order() {
    let error = ensure_required_scopes(&strings(&["rpc.voice.read", "identify"])).unwrap_err();
    assert_eq!(
        error.message(),
        "token.json is missing required scopes: rpc, rpc.voice.write"
    );
    let error = ensure_required_scopes(&strings(&["rpc", "rpc.voice.write"])).unwrap_err();
    assert_eq!(error.message(), "token.json is missing required scopes: rpc.voice.read");
}

#[test]
fn sufficient_or_unknown_scopes_pass() {
    assert!(ensure_required_scopes(&Vec::new()).is_ok());
    let all = strings(&["x", "rpc.voice.write", "rpc", "rpc.voice.read"]);
    assert!(ensure_required_scopes(&all).is_ok());
}

#[test]
fn token_expires_at_its_time() {
    let held = token(&[], Some("2020-01-02T03:04:05Z"));
    assert!(check_token(&held, EXPIRY - 1).is_ok());
    let error = check_token(&held, EXPIRY).unwrap_err();
    assert_eq!(error.message(), "token.json expired at 2020-01-02 3:04:05.0 +00:00:00");
    assert!(check_token(&held, EXPIRY + 1).is_err());
    let shifted = token(&[], Some("2020-01-02T05:04:05+02:00"));
    assert!(check_token(&shifted, EXPIRY - 1).is_ok());
    assert!(check_token(&shifted, EXPIRY).is_err());
}

#[test]
fn token_without_expiry_lasts() {
    assert!(check_token(&token(&[], None), i128::MAX).is_ok());
}

#[test]
fn invalid_expiry_is_refused() {
    let error = check_token(&token(&[], Some("tomorrow")), 0).unwrap_err();
    assert!(matches!(error, TokenError::InvalidExpiry(_)));
    assert_eq!(error.message(), "token.json has an invalid expiresAt value: tomorrow");
}

#[test]
fn blank_access_token_comes_before_all_else() {
    let mut blank = token(&["rpc"], Some("tomorrow"));
    blank.access_token = " \n".to_string();
    let error = check_token(&blank, 0).unwrap_err();
    assert_eq!(error.message(), "token.json is missing accessToken");
    let error = check_token(&token(&["rpc"], Some("tomorrow")), 0).unwrap_err();
    assert!(matches!(error, TokenError::MissingScopes(_)));
}

#[test]
fn loading_goes_by_the_clock() {
    assert!(load_token(token(&[], Some("2020-01-02T03:04:05Z"))).is_err());
    let loaded = load_token(token(&[], Some("9999-01-02T03:04:05Z"))).unwrap();
    assert_eq!(loaded.access_token, "secret");
}

#[test]
fn expiry_is_judged_by_what_it_reads() {
    let moment = || Some(Moment { unix_nanos: 10, shown: "then".to_string() });
    assert!(judge_expiry("x", moment(), 9).is_ok());
    assert!(matches!(judge_expiry("x", moment(), 10), Err(TokenError::Expired(t)) if t == "then"));
    assert!(matches!(judge_expiry("x", None, 0), Err(TokenError::InvalidExpiry(t)) if t == "x"));
}

#[test]
fn token_places() {
    assert_eq!(token_path(bytes("/t"), bytes("/xdg"), None), b"/t");
    assert_eq!(token_path(None, bytes("/xdg"), None), b"/xdg/discord-mute-rs/token.json");
    assert_eq!(token_candidates(bytes("/t"), None, None), vec![b"/t".to_vec()]);
    let places = token_candidates(None, bytes("/xdg"), None);
    assert_eq!(
        places,
        vec![
            b"/xdg/discord-mute-rs/token.json".to_vec(),
            b"token.json".to_vec(),
            b"../token.json".to_vec(),
        ]
    );
    let legacy = |path: &Vec<u8>| path.starts_with(b"..");
    assert_eq!(existing_token_path(&places, &legacy), Some(2));
    assert_eq!(token_to_load(&places, &legacy), 2);
    let relative = |path: &Vec<u8>| !path.starts_with(b"/");
    assert_eq!(token_to_load(&places, &relative), 1);
    let nowhere = |_: &Vec<u8>| false;
    assert_eq!(existing_token_path(&places, &nowhere), None);
    assert_eq!(token_to_load(&places, &nowhere), 0);
    assert_eq!(save_token("{\"a\":1}"), "{\"a\":1}\n");
}

#[test]
fn token_request() {
    assert_eq!(Endpoint::Token.url(), "https://discord.com/api/oauth2/token");
    assert_eq!(Endpoint::Me.url(), "https://discord.com/api/oauth2/@me");
    let form = token_form("id", "sec", "code");
    let fields: Vec<(&str, &str)> =
        form.iter().map(|(key, value)| (key.as_str(), value.as_str())).collect();
    assert_eq!(
        fields,
        vec![
            ("client_id", "id"),
            ("client_secret", "sec"),
            ("code", "code"),
            ("grant_type", "authorization_code"),
            ("redirect_uri", "http://localhost"),
        ]
    );
}

#[test]
fn success_is_two_hundred_something() {
    assert!(!is_success(199));
    assert!(is_success(200));
    assert!(is_success(299));
    assert!(!is_success(300));
}

#[test]
fn http_errors_read() {
    assert_eq!(
        HttpError::Unsent.message(Endpoint::Token),
        "failed to send Discord OAuth token request"
    );
    assert_eq!(
        HttpError::Undecodable.message(Endpoint::Me),
        "failed to decode Discord /oauth2/@me response"
    );
    let refused = HttpError::Refused { status: "401 Unauthorized".to_string(), body: some("no") };
    assert_eq!(
        refused.message(Endpoint::Me),
        "Discord /oauth2/@me request failed with 401 Unauthorized: no"
    );
    let refused = HttpError::Refused { status: "500".to_string(), body: None };
    assert_eq!(
        refused.message(Endpoint::Token),
        "Discord OAuth token request failed with 500: (unreadable body)"
    );
}

fn go_on(step: AuthStep) -> Authorization {
    match step {
        AuthStep::Continue(next) => next,
        other => panic!("unexpected {other:?}"),
    }
}

fn at_info() -> Authorization {
    let exchange = go_on(authorize_and_save_token().step(AuthEvent::Code(Ok("c".to_string()))));
    assert!(matches!(&exchange, Authorization::ExchangeCode(code) if code == "c"));
    let info = go_on(exchange.step(AuthEvent::AccessToken(Ok("t".to_string()))));
    assert!(matches!(&info, Authorization::FetchInfo(token) if token == "t"));
    info
}

#[test]
fn authorization_ends_in_a_saved_token() {
    let granted = Granted { scopes: strings(&REQUIRED_SCOPES), expires: some("later") };
    let save = go_on(at_info().step(AuthEvent::Info(Some(granted))));
    match save.step(AuthEvent::Saved(Ok(()))) {
        AuthStep::Done(token) => {
            assert_eq!(token.access_token, "t");
            assert_eq!(token.scopes, strings(&REQUIRED_SCOPES));
            assert_eq!(token.expires_at.as_deref(), Some("later"));
        }
        other => panic!("unexpected {other:?}"),
    }
}

#[test]
fn unknown_grants_do_not_stop_an_authorization() {
    match go_on(at_info().step(AuthEvent::Info(None))) {
        Authorization::SaveToken(token) => {
            assert_eq!(token.access_token, "t");
            assert!(token.scopes.is_empty());
            assert!(token.expires_at.is_none());
        }
        other => panic!("unexpected {other:?}"),
    }
}

#[test]
fn insufficient_grants_stop_an_authorization() {
    let granted = Granted { scopes: strings(&["rpc"]), expires: None };
    match at_info().step(AuthEvent::Info(Some(granted))) {
        AuthStep::Failed(error) => assert_eq!(
            error,
            "token.json is missing required scopes: rpc.voice.read, rpc.voice.write"
        ),
        other => panic!("unexpected {other:?}"),
    }
}

#[test]
fn authorization_fails_with_what_failed() {
    let failed = authorize_and_save_token().step(AuthEvent::Code(Err("denied".to_string())));
    assert!(matches!(failed, AuthStep::Failed(e) if e == "denied"));
    let failed = at_info().step(AuthEvent::Saved(Ok(())));
    assert!(matches!(failed, AuthStep::Continue(Authorization::FetchInfo(_))));
    let save = go_on(at_info().step(AuthEvent::Info(None)));
    let failed = save.step(AuthEvent::Saved(Err("disk full".to_string())));
    assert!(matches!(failed, AuthStep::Failed(e) if e == "disk full"));
}
