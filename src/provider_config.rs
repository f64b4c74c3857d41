//! Provider configuration, and what the API-key and KMS handlers read from it
//! before they contact a remote source.

use vstd::prelude::*;

use crate::policy::text_of;
use crate::resolver::FetchOutcome;
use crate::text::same_text;

verus! {

/// The fields of a provider configuration that the handlers read; `secrets`
/// maps secret names to provider-side identifiers.
#[derive(Debug)]
pub struct ProviderConfig {
    pub api_endpoint: Option<String>,
    pub auth_header: Option<String>,
    pub auth_token: Option<String>,
    pub kms_provider: Option<String>,
    pub aws_region: Option<String>,
    pub kms_key_id: Option<String>,
    pub secret_arn: Option<String>,
    pub gcp_project_id: Option<String>,
    pub azure_vault_url: Option<String>,
    pub secrets: Vec<(String, String)>,
}

/// An HTTP request for a credential from a provider's API endpoint.
#[derive(Debug)]
pub struct ApiKeyRequest {
    pub url: String,
    pub header_name: String,
    pub header_value: String,
}

/// Where a KMS-held credential is read from.
#[derive(Debug)]
pub enum KmsTarget {
    AwsSecretsManager { region: String, kms_key_id: String, secret_arn: String },
}

/// The identifier mapped to `name`, the first entry that names it.
pub open spec fn mapped_secret(secrets: Seq<(String, String)>, name: Seq<char>) -> Option<Seq<char>>
    decreases secrets.len(),
{
    if secrets.len() == 0 {
        None
    } else if secrets[0].0@ == name {
        Some(secrets[0].1@)
    } else {
        mapped_secret(secrets.subrange(1, secrets.len() as int), name)
    }
}

/// Whether `r` is the API-key request for `secret_name` under `c`: an
/// endpoint and a token are required; the header defaults to
/// `Authorization`.
pub open spec fn api_key_plan(r: Result<ApiKeyRequest, FetchOutcome>, c: ProviderConfig, secret_name: Seq<char>) -> bool {
    match (text_of(c.api_endpoint), text_of(c.auth_token)) {
        (None, _) => r matches Err(FetchOutcome::Misconfigured(m)) && m@ == "Missing api_endpoint in config"@,
        (Some(_), None) => r matches Err(FetchOutcome::Misconfigured(m)) && m@ == "Missing auth_token in config"@,
        (Some(endpoint), Some(token)) => match r {
            Ok(req) => {
                &&& req.url@ == endpoint + "/credentials/"@ + secret_name
                &&& req.header_name@ == match text_of(c.auth_header) {
                    Some(h) => h,
                    None => "Authorization"@,
                }
                &&& req.header_value@ == "Bearer "@ + token
            },
            Err(_) => false,
        },
    }
}

/// Whether `r` is the KMS target of `secret_name` under `c`. AWS needs a
/// region, a key id and a secret ARN (given, or mapped from the secret
/// name); GCP and Azure are recognised but cannot be reached.
pub open spec fn kms_plan(r: Result<KmsTarget, FetchOutcome>, c: ProviderConfig, secret_name: Seq<char>) -> bool {
    match text_of(c.kms_provider) {
        None => r matches Err(FetchOutcome::Misconfigured(m)) && m@ == "Missing kms_provider in config"@,
        Some(p) => if p == "aws"@ {
            match (text_of(c.aws_region), text_of(c.kms_key_id)) {
                (None, _) => r matches Err(FetchOutcome::Misconfigured(m)) && m@ == "Missing aws_region in config"@,
                (Some(_), None) => r matches Err(FetchOutcome::Misconfigured(m)) && m@ == "Missing kms_key_id in config"@,
                (Some(region), Some(key)) => {
                    let arn = match text_of(c.secret_arn) {
                        Some(a) => Some(a),
                        None => mapped_secret(c.secrets@, secret_name),
                    };
                    match arn {
                        None => r matches Err(FetchOutcome::Misconfigured(m)) && m@ == "Missing secret ARN"@,
                        Some(a) => match r {
                            Ok(KmsTarget::AwsSecretsManager { region: rr, kms_key_id: rk, secret_arn: ra }) => {
                                &&& rr@ == region
                                &&& rk@ == key
                                &&& ra@ == a
                            },
                            Err(_) => false,
                        },
                    }
                },
            }
        } else if p == "gcp"@ {
            if c.gcp_project_id is None {
                r matches Err(FetchOutcome::Misconfigured(m)) && m@ == "Missing gcp_project_id in config"@
            } else if mapped_secret(c.secrets@, secret_name) is None {
                r matches Err(FetchOutcome::Misconfigured(m)) && m@ == "Missing secret mapping for this secret"@
            } else {
                r matches Err(FetchOutcome::Failed(m)) && m@
                    == "GCP Secret Manager integration requires service account authentication"@
            }
        } else if p == "azure"@ {
            if c.azure_vault_url is None {
                r matches Err(FetchOutcome::Misconfigured(m)) && m@ == "Missing azure_vault_url in config"@
            } else {
                r matches Err(FetchOutcome::Failed(m)) && m@
                    == "Azure Key Vault integration requires managed identity or service principal"@
            }
        } else {
            r matches Err(FetchOutcome::Misconfigured(m)) && m@ == "Unsupported KMS provider: "@ + p
        },
    }
}

fn misconfigured(message: &str) -> (r: FetchOutcome)
    ensures
        r matches FetchOutcome::Misconfigured(m) && m@ == message@,
{
    FetchOutcome::Misconfigured(message.to_owned())
}

/// The identifier mapped to `name`.
pub fn lookup_secret(secrets: &Vec<(String, String)>, name: &str) -> (r: Option<String>)
    ensures
        text_of(r) == mapped_secret(secrets@, name@),
{
    let mut i: usize = 0;
    assert(secrets@.subrange(0, secrets@.len() as int) =~= secrets@);
    while i < secrets.len()
        invariant
            i <= secrets@.len(),
            mapped_secret(secrets@, name@) == mapped_secret(secrets@.subrange(i as int, secrets@.len() as int), name@),
        decreases secrets@.len() - i,
    {
        let ghost rest = secrets@.subrange(i as int, secrets@.len() as int);
        assert(rest[0] == secrets@[i as int]);
        assert(rest.subrange(1, rest.len() as int) =~= secrets@.subrange(i + 1, secrets@.len() as int));
        if same_text(secrets[i].0.as_str(), name) {
            return Some(secrets[i].1.clone());
        }
        i += 1;
    }
    None
}

/// The request that fetches `secret_name` from the provider's API endpoint.
pub fn api_key_request(config: &ProviderConfig, secret_name: &str) -> (r: Result<ApiKeyRequest, FetchOutcome>)
    ensures
        api_key_plan(r, *config, secret_name@),
{
    let endpoint = match &config.api_endpoint {
        Some(e) => e,
        None => {
            return Err(misconfigured("Missing api_endpoint in config"));
        },
    };
    let token = match &config.auth_token {
        Some(t) => t,
        None => {
            return Err(misconfigured("Missing auth_token in config"));
        },
    };
    let header_name = match &config.auth_header {
        Some(h) => h.clone(),
        None => "Authorization".to_owned(),
    };
    let mut url = endpoint.clone();
    url.append("/credentials/");
    url.append(secret_name);
    let mut header_value = "Bearer ".to_owned();
    header_value.append(token.as_str());
    Ok(ApiKeyRequest { url, header_name, header_value })
}

/// Where the KMS credential `secret_name` is to be read from.
pub fn kms_target(config: &ProviderConfig, secret_name: &str) -> (r: Result<KmsTarget, FetchOutcome>)
    ensures
        kms_plan(r, *config, secret_name@),
{
    let provider = match &config.kms_provider {
        Some(p) => p,
        None => {
            return Err(misconfigured("Missing kms_provider in config"));
        },
    };
    if same_text(provider.as_str(), "aws") {
        let region = match &config.aws_region {
            Some(v) => v.clone(),
            None => {
                return Err(misconfigured("Missing aws_region in config"));
            },
        };
        let kms_key_id = match &config.kms_key_id {
            Some(v) => v.clone(),
            None => {
                return Err(misconfigured("Missing kms_key_id in config"));
            },
        };
        let secret_arn = match &config.secret_arn {
            Some(v) => v.clone(),
            None => match lookup_secret(&config.secrets, secret_name) {
                Some(v) => v,
                None => {
                    return Err(misconfigured("Missing secret ARN"));
                },
            },
        };
        Ok(KmsTarget::AwsSecretsManager { region, kms_key_id, secret_arn })
    } else if same_text(provider.as_str(), "gcp") {
        if config.gcp_project_id.is_none() {
            return Err(misconfigured("Missing gcp_project_id in config"));
        }
        if lookup_secret(&config.secrets, secret_name).is_none() {
            return Err(misconfigured("Missing secret mapping for this secret"));
        }
        Err(FetchOutcome::Failed("GCP Secret Manager integration requires service account authentication".to_owned()))
    } else if same_text(provider.as_str(), "azure") {
        if config.azure_vault_url.is_none() {
            return Err(misconfigured("Missing azure_vault_url in config"));
        }
        Err(FetchOutcome::Failed("Azure Key Vault integration requires managed identity or service principal".to_owned()))
    } else {
        let mut message = "Unsupported KMS provider: ".to_owned();
        message.append(provider.as_str());
        Err(FetchOutcome::Misconfigured(message))
    }
}

} // verus!
