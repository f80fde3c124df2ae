use objstore::errors::SimpleErrorKind;
use objstore::secrets::{get_vault_config, FuncTestsSecrets};

fn empty() -> FuncTestsSecrets {
    FuncTestsSecrets::empty()
}

#[test]
fn empty_has_no_secret_set() {
    let secrets = empty();
    assert_eq!(secrets.AWS_ACCESS_KEY_ID, None);
    assert_eq!(secrets.DIGITAL_OCEAN_SPACES_ACCESS_ID, None);
    assert_eq!(secrets.TERRAFORM_AWS_REGION, None);
}

#[test]
fn select_secret_prefers_the_environment() {
    let got = FuncTestsSecrets::select_secret(
        Some(String::from("from-env")),
        Some(String::from("from-vault")),
    );
    assert_eq!(got.as_deref(), Some("from-env"));
}

#[test]
fn select_secret_falls_back_to_the_vault() {
    let got = FuncTestsSecrets::select_secret(None, Some(String::from("from-vault")));
    assert_eq!(got.as_deref(), Some("from-vault"));
}

#[test]
fn select_secret_can_come_up_empty() {
    assert_eq!(FuncTestsSecrets::select_secret(None, None), None);
}

#[test]
fn get_all_secrets_merges_field_by_field() {
    let mut env = empty();
    env.AWS_ACCESS_KEY_ID = Some(String::from("env-key"));
    let mut vault = empty();
    vault.AWS_ACCESS_KEY_ID = Some(String::from("vault-key"));
    vault.AWS_SECRET_ACCESS_KEY = Some(String::from("vault-secret"));

    let merged = FuncTestsSecrets::get_all_secrets(env, vault);
    assert_eq!(merged.AWS_ACCESS_KEY_ID.as_deref(), Some("env-key"));
    assert_eq!(merged.AWS_SECRET_ACCESS_KEY.as_deref(), Some("vault-secret"));
    assert_eq!(merged.AWS_DEFAULT_REGION, None);
}

#[test]
fn new_resolves_like_the_merge() {
    let mut env = empty();
    env.QOVERY_API_URL = Some(String::from("https://api.example"));
    let vault = empty();
    let secrets = FuncTestsSecrets::new(env, vault);
    assert_eq!(secrets.QOVERY_API_URL.as_deref(), Some("https://api.example"));
}

#[test]
fn vault_secrets_degrade_to_empty_when_unreachable() {
    let secrets = FuncTestsSecrets::get_secrets_from_vault(None);
    assert_eq!(secrets.DIGITAL_OCEAN_TOKEN, None);
    assert_eq!(secrets.RUST_LOG, None);
}

#[test]
fn vault_secrets_pass_through_when_fetched() {
    let mut fetched = empty();
    fetched.DIGITAL_OCEAN_TOKEN = Some(String::from("token"));
    let secrets = FuncTestsSecrets::get_secrets_from_vault(Some(fetched));
    assert_eq!(secrets.DIGITAL_OCEAN_TOKEN.as_deref(), Some("token"));
}

#[test]
fn vault_config_requires_the_address() {
    let err = get_vault_config(None, Some(String::from("token"))).unwrap_err();
    assert_eq!(err.kind, SimpleErrorKind::Other);
    assert_eq!(err.message.as_deref(), Some("VAULT_ADDR environment variable is missing"));
}

#[test]
fn vault_config_requires_the_token() {
    let err = get_vault_config(Some(String::from("https://vault.example")), None).unwrap_err();
    assert_eq!(err.kind, SimpleErrorKind::Other);
    assert_eq!(err.message.as_deref(), Some("VAULT_TOKEN environment variable is missing"));
}

#[test]
fn vault_config_carries_both_values() {
    let config = get_vault_config(
        Some(String::from("https://vault.example")),
        Some(String::from("token")),
    )
    .unwrap();
    assert_eq!(config.address, "https://vault.example");
    assert_eq!(config.token, "token");
}
