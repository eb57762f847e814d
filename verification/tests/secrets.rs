use dataverse_heavy_uploader::domain::errors::AppError;
use dataverse_heavy_uploader::services::secrets::{normalize, KeyringRead, SecretsService};

#[test]
fn keys_normalize_url_and_pid() {
    let s = SecretsService::new("svc");
    assert_eq!(s.service_name(), "svc");
    assert_eq!(
        s.account_key("  HTTPS://Demo.Dataverse.org/// ", " doi:10/ABC "),
        "https://demo.dataverse.org::doi:10/ABC"
    );
    assert_eq!(normalize("https://X.org/"), "https://x.org");
}

#[test]
fn remembered_token_is_read_back_without_keychain_entry() {
    let mut s = SecretsService::new("svc");
    s.remember_api_token("https://dv.org", "pid", "tok-1");
    let got = s.get_api_token("https://dv.org/", " pid ", KeyringRead::NoEntry).unwrap();
    assert_eq!(got.as_deref(), Some("tok-1"));
    let got = s
        .get_api_token("https://dv.org", "pid", KeyringRead::Failed("locked".to_string()))
        .unwrap();
    assert_eq!(got.as_deref(), Some("tok-1"));
    s.remember_api_token("https://dv.org", "pid", "tok-2");
    let got = s.get_api_token("https://dv.org", "pid", KeyringRead::NoEntry).unwrap();
    assert_eq!(got.as_deref(), Some("tok-2"));
    assert_eq!(s.get_api_token("https://dv.org", "other", KeyringRead::NoEntry).unwrap(), None);
}

#[test]
fn keychain_token_wins_and_failures_are_reported() {
    let mut s = SecretsService::new("svc");
    s.remember_api_token("u", "p", "cached");
    let got = s.get_api_token("u", "p", KeyringRead::Found("stored".to_string())).unwrap();
    assert_eq!(got.as_deref(), Some("stored"));
    match s.get_api_token("u", "q", KeyringRead::Failed("denied".to_string())) {
        Err(AppError::Keyring(m)) => assert_eq!(m, "denied"),
        _ => panic!("failure without cached token is an error"),
    }
    assert!(matches!(
        s.get_api_token("u", "p", KeyringRead::Unavailable("no backend".to_string())),
        Err(AppError::Keyring(_))
    ));
    assert_eq!(s.has_api_token("u", "p", KeyringRead::NoEntry).unwrap(), true);
    assert_eq!(s.has_api_token("u", "q", KeyringRead::NoEntry).unwrap(), false);
}
