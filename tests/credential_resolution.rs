use codex_usage::credential::{
    extract_from_auth, resolve, AuthFile, CredentialError, CredentialSources, Origin, SecretEntry,
    TokenBlock,
};

fn empty_sources() -> CredentialSources {
    CredentialSources {
        oauth_token_env: None,
        account_id_env: None,
        api_key_env: None,
        files: vec![],
        secret_store: vec![],
    }
}

fn oauth_blob(token: &str, account: Option<&str>) -> AuthFile {
    AuthFile {
        tokens: Some(TokenBlock {
            access_token: Some(token.to_string()),
            account_id: account.map(|a| a.to_string()),
        }),
        openai_api_key: None,
    }
}

fn key_blob(key: &str) -> AuthFile {
    AuthFile { tokens: None, openai_api_key: Some(key.to_string()) }
}

#[test]
fn override_variable_alone() {
    let mut s = empty_sources();
    s.oauth_token_env = Some("tok-1".to_string());
    s.account_id_env = Some("acct".to_string());
    let c = resolve(&s).unwrap();
    assert_eq!(c.token, "tok-1");
    assert_eq!(c.account_id, Some("acct".to_string()));
    assert_eq!(c.origin, Origin::EnvOverride);
    assert!(c.is_oauth());
}

#[test]
fn override_variable_is_trimmed() {
    let mut s = empty_sources();
    s.oauth_token_env = Some("  tok-1 \n".to_string());
    assert_eq!(resolve(&s).unwrap().token, "tok-1");
}

#[test]
fn key_variable_alone() {
    let mut s = empty_sources();
    s.api_key_env = Some("sk-abc".to_string());
    let c = resolve(&s).unwrap();
    assert_eq!(c.token, "sk-abc");
    assert_eq!(c.account_id, None);
    assert_eq!(c.origin, Origin::ApiKey);
    assert!(!c.is_oauth());
}

#[test]
fn file_alone() {
    let mut s = empty_sources();
    s.files = vec![None, Some(oauth_blob("file-tok", Some("a1")))];
    let c = resolve(&s).unwrap();
    assert_eq!(c.token, "file-tok");
    assert_eq!(c.account_id, Some("a1".to_string()));
    assert_eq!(c.origin, Origin::OAuthFile);
    assert!(c.is_oauth());
}

#[test]
fn secret_store_alone_raw_token() {
    let mut s = empty_sources();
    s.secret_store = vec![
        None,
        Some(SecretEntry { raw: "   ".to_string(), parsed: None }),
        Some(SecretEntry { raw: " raw-tok\n".to_string(), parsed: None }),
    ];
    let c = resolve(&s).unwrap();
    assert_eq!(c.token, "raw-tok");
    assert_eq!(c.origin, Origin::OAuthKeychain);
    assert!(c.is_oauth());
}

#[test]
fn secret_store_blob_is_preferred_over_raw_text() {
    let mut s = empty_sources();
    s.secret_store = vec![Some(SecretEntry {
        raw: "{\"tokens\":{\"access_token\":\"blob-tok\"}}".to_string(),
        parsed: Some(oauth_blob("blob-tok", None)),
    })];
    let c = resolve(&s).unwrap();
    assert_eq!(c.token, "blob-tok");
    assert_eq!(c.origin, Origin::OAuthKeychain);
}

#[test]
fn secret_store_blob_without_fields_uses_raw_text() {
    let mut s = empty_sources();
    s.secret_store = vec![Some(SecretEntry {
        raw: "{}".to_string(),
        parsed: Some(AuthFile { tokens: None, openai_api_key: None }),
    })];
    let c = resolve(&s).unwrap();
    assert_eq!(c.token, "{}");
    assert_eq!(c.origin, Origin::OAuthKeychain);
}

#[test]
fn higher_priority_wins() {
    let mut s = empty_sources();
    s.oauth_token_env = Some("env-tok".to_string());
    s.api_key_env = Some("sk-abc".to_string());
    s.files = vec![Some(oauth_blob("file-tok", None))];
    s.secret_store = vec![Some(SecretEntry { raw: "raw".to_string(), parsed: None })];
    assert_eq!(resolve(&s).unwrap().token, "env-tok");
    s.oauth_token_env = None;
    assert_eq!(resolve(&s).unwrap().token, "sk-abc");
    s.api_key_env = None;
    assert_eq!(resolve(&s).unwrap().token, "file-tok");
    s.files = vec![];
    assert_eq!(resolve(&s).unwrap().token, "raw");
}

#[test]
fn blank_values_are_absent() {
    let mut s = empty_sources();
    s.oauth_token_env = Some("   ".to_string());
    s.api_key_env = Some("".to_string());
    s.files = vec![Some(oauth_blob(" \t", None)), Some(key_blob("  "))];
    s.secret_store = vec![Some(SecretEntry { raw: "\n".to_string(), parsed: None })];
    assert_eq!(resolve(&s).unwrap_err(), CredentialError::NoCredentialFound);
}

#[test]
fn unusable_file_falls_through_to_next_source() {
    let mut s = empty_sources();
    s.files = vec![
        Some(AuthFile { tokens: None, openai_api_key: None }),
        Some(key_blob("sk-second")),
    ];
    let c = resolve(&s).unwrap();
    assert_eq!(c.token, "sk-second");
    assert_eq!(c.origin, Origin::ApiKey);
}

#[test]
fn nothing_found() {
    assert_eq!(resolve(&empty_sources()).unwrap_err(), CredentialError::NoCredentialFound);
}

#[test]
fn blob_prefers_oauth_token_over_key() {
    let mut auth = oauth_blob("oauth", Some("acct"));
    auth.openai_api_key = Some("sk-key".to_string());
    let c = extract_from_auth(&auth, Origin::OAuthFile).unwrap();
    assert_eq!(c.token, "oauth");
    assert_eq!(c.origin, Origin::OAuthFile);
    auth.tokens = Some(TokenBlock { access_token: Some(" ".to_string()), account_id: None });
    let c = extract_from_auth(&auth, Origin::OAuthFile).unwrap();
    assert_eq!(c.token, "sk-key");
    assert_eq!(c.origin, Origin::ApiKey);
}

#[test]
fn blob_without_usable_field() {
    let auth = AuthFile { tokens: Some(TokenBlock { access_token: None, account_id: Some("x".to_string()) }), openai_api_key: None };
    assert_eq!(
        extract_from_auth(&auth, Origin::OAuthFile).unwrap_err(),
        CredentialError::NoUsableToken
    );
}
