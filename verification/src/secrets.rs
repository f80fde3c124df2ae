//! Functional-test secrets: a fixed set of named credentials, each coming
//! from the process environment when set there and otherwise from a vault
//! fallback.
//!
//! Reading the environment and talking to the vault are outside work; the
//! caller hands both snapshots in, and the merge of the two is decided here.

use vstd::prelude::*;

use crate::errors::{SimpleError, SimpleErrorKind};

verus! {

/// The secrets the functional tests draw on. Every field is optional: a
/// secret can be absent from both sources.
#[allow(non_snake_case)]
#[derive(Debug)]
pub struct FuncTestsSecrets {
    pub AWS_ACCESS_KEY_ID: Option<String>,
    pub AWS_DEFAULT_REGION: Option<String>,
    pub AWS_SECRET_ACCESS_KEY: Option<String>,
    pub BIN_VERSION_FILE: Option<String>,
    pub CLOUDFLARE_DOMAIN: Option<String>,
    pub CLOUDFLARE_ID: Option<String>,
    pub CLOUDFLARE_TOKEN: Option<String>,
    pub CUSTOM_TEST_DOMAIN: Option<String>,
    pub DEFAULT_TEST_DOMAIN: Option<String>,
    pub DIGITAL_OCEAN_SPACES_ACCESS_ID: Option<String>,
    pub DIGITAL_OCEAN_SPACES_SECRET_ID: Option<String>,
    pub DIGITAL_OCEAN_TOKEN: Option<String>,
    pub DISCORD_API_URL: Option<String>,
    pub EKS_ACCESS_CIDR_BLOCKS: Option<String>,
    pub GITHUB_ACCESS_TOKEN: Option<String>,
    pub HTTP_LISTEN_ON: Option<String>,
    pub LETS_ENCRYPT_EMAIL_REPORT: Option<String>,
    pub LIB_ROOT_DIR: Option<String>,
    pub QOVERY_AGENT_CONTROLLER_TOKEN: Option<String>,
    pub QOVERY_API_URL: Option<String>,
    pub QOVERY_ENGINE_CONTROLLER_TOKEN: Option<String>,
    pub QOVERY_NATS_URL: Option<String>,
    pub QOVERY_NATS_USERNAME: Option<String>,
    pub QOVERY_NATS_PASSWORD: Option<String>,
    pub QOVERY_SSH_USER: Option<String>,
    pub RUST_LOG: Option<String>,
    pub TERRAFORM_AWS_ACCESS_KEY_ID: Option<String>,
    pub TERRAFORM_AWS_SECRET_ACCESS_KEY: Option<String>,
    pub TERRAFORM_AWS_REGION: Option<String>,
}

/// One secret's resolution: the environment wins when it has the value, and
/// the vault fallback is used otherwise.
pub open spec fn spec_select(env_value: Option<String>, vault_fallback: Option<String>) -> Option<
    String,
> {
    if env_value is Some {
        env_value
    } else {
        vault_fallback
    }
}

/// The whole-struct merge: every secret resolved by [`spec_select`].
pub open spec fn spec_merged(env: FuncTestsSecrets, vault: FuncTestsSecrets) -> FuncTestsSecrets {
    FuncTestsSecrets {
        AWS_ACCESS_KEY_ID: spec_select(env.AWS_ACCESS_KEY_ID, vault.AWS_ACCESS_KEY_ID),
        AWS_DEFAULT_REGION: spec_select(env.AWS_DEFAULT_REGION, vault.AWS_DEFAULT_REGION),
        AWS_SECRET_ACCESS_KEY: spec_select(env.AWS_SECRET_ACCESS_KEY, vault.AWS_SECRET_ACCESS_KEY),
        BIN_VERSION_FILE: spec_select(env.BIN_VERSION_FILE, vault.BIN_VERSION_FILE),
        CLOUDFLARE_DOMAIN: spec_select(env.CLOUDFLARE_DOMAIN, vault.CLOUDFLARE_DOMAIN),
        CLOUDFLARE_ID: spec_select(env.CLOUDFLARE_ID, vault.CLOUDFLARE_ID),
        CLOUDFLARE_TOKEN: spec_select(env.CLOUDFLARE_TOKEN, vault.CLOUDFLARE_TOKEN),
        CUSTOM_TEST_DOMAIN: spec_select(env.CUSTOM_TEST_DOMAIN, vault.CUSTOM_TEST_DOMAIN),
        DEFAULT_TEST_DOMAIN: spec_select(env.DEFAULT_TEST_DOMAIN, vault.DEFAULT_TEST_DOMAIN),
        DIGITAL_OCEAN_SPACES_ACCESS_ID: spec_select(
            env.DIGITAL_OCEAN_SPACES_ACCESS_ID,
            vault.DIGITAL_OCEAN_SPACES_ACCESS_ID,
        ),
        DIGITAL_OCEAN_SPACES_SECRET_ID: spec_select(
            env.DIGITAL_OCEAN_SPACES_SECRET_ID,
            vault.DIGITAL_OCEAN_SPACES_SECRET_ID,
        ),
        DIGITAL_OCEAN_TOKEN: spec_select(env.DIGITAL_OCEAN_TOKEN, vault.DIGITAL_OCEAN_TOKEN),
        DISCORD_API_URL: spec_select(env.DISCORD_API_URL, vault.DISCORD_API_URL),
        EKS_ACCESS_CIDR_BLOCKS: spec_select(
            env.EKS_ACCESS_CIDR_BLOCKS,
            vault.EKS_ACCESS_CIDR_BLOCKS,
        ),
        GITHUB_ACCESS_TOKEN: spec_select(env.GITHUB_ACCESS_TOKEN, vault.GITHUB_ACCESS_TOKEN),
        HTTP_LISTEN_ON: spec_select(env.HTTP_LISTEN_ON, vault.HTTP_LISTEN_ON),
        LETS_ENCRYPT_EMAIL_REPORT: spec_select(
            env.LETS_ENCRYPT_EMAIL_REPORT,
            vault.LETS_ENCRYPT_EMAIL_REPORT,
        ),
        LIB_ROOT_DIR: spec_select(env.LIB_ROOT_DIR, vault.LIB_ROOT_DIR),
        QOVERY_AGENT_CONTROLLER_TOKEN: spec_select(
            env.QOVERY_AGENT_CONTROLLER_TOKEN,
            vault.QOVERY_AGENT_CONTROLLER_TOKEN,
        ),
        QOVERY_API_URL: spec_select(env.QOVERY_API_URL, vault.QOVERY_API_URL),
        QOVERY_ENGINE_CONTROLLER_TOKEN: spec_select(
            env.QOVERY_ENGINE_CONTROLLER_TOKEN,
            vault.QOVERY_ENGINE_CONTROLLER_TOKEN,
        ),
        QOVERY_NATS_URL: spec_select(env.QOVERY_NATS_URL, vault.QOVERY_NATS_URL),
        QOVERY_NATS_USERNAME: spec_select(env.QOVERY_NATS_USERNAME, vault.QOVERY_NATS_USERNAME),
        QOVERY_NATS_PASSWORD: spec_select(env.QOVERY_NATS_PASSWORD, vault.QOVERY_NATS_PASSWORD),
        QOVERY_SSH_USER: spec_select(env.QOVERY_SSH_USER, vault.QOVERY_SSH_USER),
        RUST_LOG: spec_select(env.RUST_LOG, vault.RUST_LOG),
        TERRAFORM_AWS_ACCESS_KEY_ID: spec_select(
            env.TERRAFORM_AWS_ACCESS_KEY_ID,
            vault.TERRAFORM_AWS_ACCESS_KEY_ID,
        ),
        TERRAFORM_AWS_SECRET_ACCESS_KEY: spec_select(
            env.TERRAFORM_AWS_SECRET_ACCESS_KEY,
            vault.TERRAFORM_AWS_SECRET_ACCESS_KEY,
        ),
        TERRAFORM_AWS_REGION: spec_select(env.TERRAFORM_AWS_REGION, vault.TERRAFORM_AWS_REGION),
    }
}

/// The struct with every secret absent.
pub open spec fn spec_empty() -> FuncTestsSecrets {
    FuncTestsSecrets {
        AWS_ACCESS_KEY_ID: None,
        AWS_DEFAULT_REGION: None,
        AWS_SECRET_ACCESS_KEY: None,
        BIN_VERSION_FILE: None,
        CLOUDFLARE_DOMAIN: None,
        CLOUDFLARE_ID: None,
        CLOUDFLARE_TOKEN: None,
        CUSTOM_TEST_DOMAIN: None,
        DEFAULT_TEST_DOMAIN: None,
        DIGITAL_OCEAN_SPACES_ACCESS_ID: None,
        DIGITAL_OCEAN_SPACES_SECRET_ID: None,
        DIGITAL_OCEAN_TOKEN: None,
        DISCORD_API_URL: None,
        EKS_ACCESS_CIDR_BLOCKS: None,
        GITHUB_ACCESS_TOKEN: None,
        HTTP_LISTEN_ON: None,
        LETS_ENCRYPT_EMAIL_REPORT: None,
        LIB_ROOT_DIR: None,
        QOVERY_AGENT_CONTROLLER_TOKEN: None,
        QOVERY_API_URL: None,
        QOVERY_ENGINE_CONTROLLER_TOKEN: None,
        QOVERY_NATS_URL: None,
        QOVERY_NATS_USERNAME: None,
        QOVERY_NATS_PASSWORD: None,
        QOVERY_SSH_USER: None,
        RUST_LOG: None,
        TERRAFORM_AWS_ACCESS_KEY_ID: None,
        TERRAFORM_AWS_SECRET_ACCESS_KEY: None,
        TERRAFORM_AWS_REGION: None,
    }
}

impl FuncTestsSecrets {
    /// Resolve the full set of secrets from an environment snapshot and a
    /// vault snapshot.
    pub fn new(env: FuncTestsSecrets, vault: FuncTestsSecrets) -> (r: FuncTestsSecrets)
        ensures
            r == spec_merged(env, vault),
    {
        Self::get_all_secrets(env, vault)
    }

    /// The struct with every secret absent: what a failed vault lookup
    /// degrades to.
    pub fn empty() -> (r: FuncTestsSecrets)
        ensures
            r == spec_empty(),
    {
        FuncTestsSecrets {
            AWS_ACCESS_KEY_ID: None,
            AWS_DEFAULT_REGION: None,
            AWS_SECRET_ACCESS_KEY: None,
            BIN_VERSION_FILE: None,
            CLOUDFLARE_DOMAIN: None,
            CLOUDFLARE_ID: None,
            CLOUDFLARE_TOKEN: None,
            CUSTOM_TEST_DOMAIN: None,
            DEFAULT_TEST_DOMAIN: None,
            DIGITAL_OCEAN_SPACES_ACCESS_ID: None,
            DIGITAL_OCEAN_SPACES_SECRET_ID: None,
            DIGITAL_OCEAN_TOKEN: None,
            DISCORD_API_URL: None,
            EKS_ACCESS_CIDR_BLOCKS: None,
            GITHUB_ACCESS_TOKEN: None,
            HTTP_LISTEN_ON: None,
            LETS_ENCRYPT_EMAIL_REPORT: None,
            LIB_ROOT_DIR: None,
            QOVERY_AGENT_CONTROLLER_TOKEN: None,
            QOVERY_API_URL: None,
            QOVERY_ENGINE_CONTROLLER_TOKEN: None,
            QOVERY_NATS_URL: None,
            QOVERY_NATS_USERNAME: None,
            QOVERY_NATS_PASSWORD: None,
            QOVERY_SSH_USER: None,
            RUST_LOG: None,
            TERRAFORM_AWS_ACCESS_KEY_ID: None,
            TERRAFORM_AWS_SECRET_ACCESS_KEY: None,
            TERRAFORM_AWS_REGION: None,
        }
    }

    /// What the vault hands back, or the empty set when no vault connection
    /// could be established or the lookup failed.
    pub fn get_secrets_from_vault(fetched: Option<FuncTestsSecrets>) -> (r: FuncTestsSecrets)
        ensures
            fetched matches Some(s) ==> r == s,
            fetched is None ==> r == spec_empty(),
    {
        match fetched {
            Some(s) => s,
            None => Self::empty(),
        }
    }

    /// One secret's resolution; see [`spec_select`].
    pub fn select_secret(env_value: Option<String>, vault_fallback: Option<String>) -> (r: Option<
        String,
    >)
        ensures
            r == spec_select(env_value, vault_fallback),
    {
        match env_value {
            Some(x) => Some(x),
            None => vault_fallback,
        }
    }

    /// Merge the environment snapshot with the vault snapshot, secret by
    /// secret; see [`spec_merged`].
    pub fn get_all_secrets(env: FuncTestsSecrets, vault: FuncTestsSecrets) -> (r: FuncTestsSecrets)
        ensures
            r == spec_merged(env, vault),
    {
        FuncTestsSecrets {
            AWS_ACCESS_KEY_ID: Self::select_secret(env.AWS_ACCESS_KEY_ID, vault.AWS_ACCESS_KEY_ID),
            AWS_DEFAULT_REGION: Self::select_secret(
                env.AWS_DEFAULT_REGION,
                vault.AWS_DEFAULT_REGION,
            ),
            AWS_SECRET_ACCESS_KEY: Self::select_secret(
                env.AWS_SECRET_ACCESS_KEY,
                vault.AWS_SECRET_ACCESS_KEY,
            ),
            BIN_VERSION_FILE: Self::select_secret(env.BIN_VERSION_FILE, vault.BIN_VERSION_FILE),
            CLOUDFLARE_DOMAIN: Self::select_secret(env.CLOUDFLARE_DOMAIN, vault.CLOUDFLARE_DOMAIN),
            CLOUDFLARE_ID: Self::select_secret(env.CLOUDFLARE_ID, vault.CLOUDFLARE_ID),
            CLOUDFLARE_TOKEN: Self::select_secret(env.CLOUDFLARE_TOKEN, vault.CLOUDFLARE_TOKEN),
            CUSTOM_TEST_DOMAIN: Self::select_secret(
                env.CUSTOM_TEST_DOMAIN,
                vault.CUSTOM_TEST_DOMAIN,
            ),
            DEFAULT_TEST_DOMAIN: Self::select_secret(
                env.DEFAULT_TEST_DOMAIN,
                vault.DEFAULT_TEST_DOMAIN,
            ),
            DIGITAL_OCEAN_SPACES_ACCESS_ID: Self::select_secret(
                env.DIGITAL_OCEAN_SPACES_ACCESS_ID,
                vault.DIGITAL_OCEAN_SPACES_ACCESS_ID,
            ),
            DIGITAL_OCEAN_SPACES_SECRET_ID: Self::select_secret(
                env.DIGITAL_OCEAN_SPACES_SECRET_ID,
                vault.DIGITAL_OCEAN_SPACES_SECRET_ID,
            ),
            DIGITAL_OCEAN_TOKEN: Self::select_secret(
                env.DIGITAL_OCEAN_TOKEN,
                vault.DIGITAL_OCEAN_TOKEN,
            ),
            DISCORD_API_URL: Self::select_secret(env.DISCORD_API_URL, vault.DISCORD_API_URL),
            EKS_ACCESS_CIDR_BLOCKS: Self::select_secret(
                env.EKS_ACCESS_CIDR_BLOCKS,
                vault.EKS_ACCESS_CIDR_BLOCKS,
            ),
            GITHUB_ACCESS_TOKEN: Self::select_secret(
                env.GITHUB_ACCESS_TOKEN,
                vault.GITHUB_ACCESS_TOKEN,
            ),
            HTTP_LISTEN_ON: Self::select_secret(env.HTTP_LISTEN_ON, vault.HTTP_LISTEN_ON),
            LETS_ENCRYPT_EMAIL_REPORT: Self::select_secret(
                env.LETS_ENCRYPT_EMAIL_REPORT,
                vault.LETS_ENCRYPT_EMAIL_REPORT,
            ),
            LIB_ROOT_DIR: Self::select_secret(env.LIB_ROOT_DIR, vault.LIB_ROOT_DIR),
            QOVERY_AGENT_CONTROLLER_TOKEN: Self::select_secret(
                env.QOVERY_AGENT_CONTROLLER_TOKEN,
                vault.QOVERY_AGENT_CONTROLLER_TOKEN,
            ),
            QOVERY_API_URL: Self::select_secret(env.QOVERY_API_URL, vault.QOVERY_API_URL),
            QOVERY_ENGINE_CONTROLLER_TOKEN: Self::select_secret(
                env.QOVERY_ENGINE_CONTROLLER_TOKEN,
                vault.QOVERY_ENGINE_CONTROLLER_TOKEN,
            ),
            QOVERY_NATS_URL: Self::select_secret(env.QOVERY_NATS_URL, vault.QOVERY_NATS_URL),
            QOVERY_NATS_USERNAME: Self::select_secret(
                env.QOVERY_NATS_USERNAME,
                vault.QOVERY_NATS_USERNAME,
            ),
            QOVERY_NATS_PASSWORD: Self::select_secret(
                env.QOVERY_NATS_PASSWORD,
                vault.QOVERY_NATS_PASSWORD,
            ),
            QOVERY_SSH_USER: Self::select_secret(env.QOVERY_SSH_USER, vault.QOVERY_SSH_USER),
            RUST_LOG: Self::select_secret(env.RUST_LOG, vault.RUST_LOG),
            TERRAFORM_AWS_ACCESS_KEY_ID: Self::select_secret(
                env.TERRAFORM_AWS_ACCESS_KEY_ID,
                vault.TERRAFORM_AWS_ACCESS_KEY_ID,
            ),
            TERRAFORM_AWS_SECRET_ACCESS_KEY: Self::select_secret(
                env.TERRAFORM_AWS_SECRET_ACCESS_KEY,
                vault.TERRAFORM_AWS_SECRET_ACCESS_KEY,
            ),
            TERRAFORM_AWS_REGION: Self::select_secret(
                env.TERRAFORM_AWS_REGION,
                vault.TERRAFORM_AWS_REGION,
            ),
        }
    }
}

/// The address and token a vault connection is made with.
#[derive(Debug)]
pub struct VaultConfig {
    pub address: String,
    pub token: String,
}

/// Decide the vault connection settings from the two environment values that
/// configure them; each must be present.
pub fn get_vault_config(vault_addr: Option<String>, vault_token: Option<String>) -> (r: Result<
    VaultConfig,
    SimpleError,
>)
    ensures
        vault_addr is None ==> (r matches Err(e) && e.kind is Other && (e.message matches Some(m)
            && m@ == "VAULT_ADDR environment variable is missing"@)),
        vault_addr is Some && vault_token is None ==> (r matches Err(e) && e.kind is Other && (
        e.message matches Some(m) && m@ == "VAULT_TOKEN environment variable is missing"@)),
        vault_addr matches Some(a) ==> (vault_token matches Some(t) ==> (r matches Ok(c)
            && c.address == a && c.token == t)),
{
    let address = match vault_addr {
        Some(a) => a,
        None => {
            return Err(
                SimpleError::new(
                    SimpleErrorKind::Other,
                    Some(String::from_str("VAULT_ADDR environment variable is missing")),
                ),
            );
        },
    };
    let token = match vault_token {
        Some(t) => t,
        None => {
            return Err(
                SimpleError::new(
                    SimpleErrorKind::Other,
                    Some(String::from_str("VAULT_TOKEN environment variable is missing")),
                ),
            );
        },
    };
    Ok(VaultConfig { address, token })
}

} // verus!
