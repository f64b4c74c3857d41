//! Provider connectors that carry out a rotation once it is admitted.
//!
//! A dry run never reaches a provider. The supported providers are AWS, GCP,
//! Azure, Vercel, Netlify, Render, Fly and Cloudflare; their connectors report
//! success with a note that the provider-side rotation is not yet performed.

use vstd::prelude::*;

use crate::text::same_text;

verus! {

#[verifier::external_type_specification]
#[verifier::external_body]
pub struct ExJsonValue(serde_json::Value);

/// The credentials a connector uses for one provider.
#[derive(Debug)]
pub struct ConnectorConfig {
    pub provider: String,
    pub credentials: serde_json::Value,
}

/// A rotation to perform.
#[derive(Debug)]
pub struct RotationRequest {
    pub workspace_id: u128,
    pub provider: String,
    pub secret_name: String,
    pub environment: String,
    pub dry_run: bool,
}

/// A value in the metadata of a rotation result.
#[derive(Debug)]
pub enum MetadataValue {
    Flag(bool),
    Text(String),
}

/// What a connector reports. The old and new values are secrets and must
/// never be logged.
#[derive(Debug)]
pub struct RotationResult {
    pub success: bool,
    pub old_value: Option<String>,
    pub new_value: Option<String>,
    pub error: Option<String>,
    /// Named values, in order.
    pub metadata: Vec<(String, MetadataValue)>,
}

/// A rotation that no connector can carry out.
#[derive(Debug)]
pub enum ConnectorError {
    UnsupportedProvider(String),
}

/// The display name of a supported provider.
pub open spec fn provider_label(p: Seq<char>) -> Option<Seq<char>> {
    if p == "aws"@ {
        Some("AWS"@)
    } else if p == "gcp"@ {
        Some("GCP"@)
    } else if p == "azure"@ {
        Some("Azure"@)
    } else if p == "vercel"@ {
        Some("Vercel"@)
    } else if p == "netlify"@ {
        Some("Netlify"@)
    } else if p == "render"@ {
        Some("Render"@)
    } else if p == "fly"@ {
        Some("Fly"@)
    } else if p == "cloudflare"@ {
        Some("Cloudflare"@)
    } else {
        None
    }
}

/// Whether a metadata entry is the flag `key` with value `value`.
pub open spec fn flag_entry(e: (String, MetadataValue), key: Seq<char>, value: bool) -> bool {
    e.0@ == key && e.1 == MetadataValue::Flag(value)
}

/// Whether a metadata entry is the text `key` with value `value`.
pub open spec fn text_entry(e: (String, MetadataValue), key: Seq<char>, value: Seq<char>) -> bool {
    &&& e.0@ == key
    &&& (e.1 matches MetadataValue::Text(t) && t@ == value)
}

/// Whether a rotation of `provider` (dry or not) cannot be carried out.
pub open spec fn rotation_refused(provider: Seq<char>, dry_run: bool) -> bool {
    !dry_run && provider_label(provider) is None
}

/// Whether `r` is the report of an accepted rotation of `provider`.
pub open spec fn rotated_as(r: RotationResult, provider: Seq<char>, dry_run: bool) -> bool {
    &&& r.success
    &&& r.old_value is None
    &&& r.new_value is None
    &&& r.error is None
    &&& r.metadata@.len() == 2
    &&& if dry_run {
        &&& flag_entry(r.metadata@[0], "dry_run"@, true)
        &&& text_entry(r.metadata@[1], "message"@, "Dry run completed successfully"@)
    } else {
        &&& text_entry(r.metadata@[0], "provider"@, provider)
        &&& text_entry(r.metadata@[1], "message"@, provider_label(provider)->Some_0 + " rotation not yet fully implemented"@)
    }
}

/// Whether `r` is what rotating by `request` gives.
pub open spec fn rotation_of(r: Result<RotationResult, ConnectorError>, request: RotationRequest) -> bool {
    if rotation_refused(request.provider@, request.dry_run) {
        r == Err::<RotationResult, ConnectorError>(ConnectorError::UnsupportedProvider(request.provider))
    } else {
        r matches Ok(res) && rotated_as(res, request.provider@, request.dry_run)
    }
}

/// The display name of a supported provider.
fn label_of(provider: &str) -> (r: Option<&'static str>)
    ensures
        match r {
            Some(l) => provider_label(provider@) == Some(l@),
            None => provider_label(provider@) is None,
        },
{
    if same_text(provider, "aws") {
        Some("AWS")
    } else if same_text(provider, "gcp") {
        Some("GCP")
    } else if same_text(provider, "azure") {
        Some("Azure")
    } else if same_text(provider, "vercel") {
        Some("Vercel")
    } else if same_text(provider, "netlify") {
        Some("Netlify")
    } else if same_text(provider, "render") {
        Some("Render")
    } else if same_text(provider, "fly") {
        Some("Fly")
    } else if same_text(provider, "cloudflare") {
        Some("Cloudflare")
    } else {
        None
    }
}

/// Runs rotations on the connector of each provider.
pub struct ConnectorOrchestrator;

impl ConnectorOrchestrator {
    pub fn new() -> (r: Self) {
        ConnectorOrchestrator
    }

    /// Rotates the secret of `request`: a dry run succeeds at once; a
    /// supported provider goes to its connector; any other is refused.
    pub fn rotate_secret(&self, request: &RotationRequest, config: &ConnectorConfig) -> (r: Result<
        RotationResult,
        ConnectorError,
    >)
        ensures
            rotation_of(r, *request),
    {
        if request.dry_run {
            let mut metadata: Vec<(String, MetadataValue)> = Vec::new();
            metadata.push(("dry_run".to_owned(), MetadataValue::Flag(true)));
            metadata.push(
                ("message".to_owned(), MetadataValue::Text("Dry run completed successfully".to_owned())),
            );
            return Ok(RotationResult { success: true, old_value: None, new_value: None, error: None, metadata });
        }
        match label_of(request.provider.as_str()) {
            Some(label) => Ok(self.rotate_with(request, label)),
            None => Err(ConnectorError::UnsupportedProvider(request.provider.clone())),
        }
    }

    /// The report of the connector of a supported provider.
    fn rotate_with(&self, request: &RotationRequest, label: &str) -> (r: RotationResult)
        requires
            provider_label(request.provider@) == Some(label@),
        ensures
            rotated_as(r, request.provider@, false),
    {
        let mut message = label.to_owned();
        message.append(" rotation not yet fully implemented");
        let mut metadata: Vec<(String, MetadataValue)> = Vec::new();
        metadata.push(("provider".to_owned(), MetadataValue::Text(request.provider.clone())));
        metadata.push(("message".to_owned(), MetadataValue::Text(message)));
        RotationResult { success: true, old_value: None, new_value: None, error: None, metadata }
    }

    /// Rotates request by request, pairing each with the configuration at the
    /// same position and stopping at the shorter list; the first refusal
    /// ends the batch with its error.
    pub fn batch_rotate(&self, requests: Vec<RotationRequest>, configs: Vec<ConnectorConfig>) -> (r: Result<
        Vec<RotationResult>,
        ConnectorError,
    >)
        ensures
            ({
                let n = if requests@.len() < configs@.len() {
                    requests@.len()
                } else {
                    configs@.len()
                };
                match r {
                    Ok(results) => {
                        &&& results@.len() == n
                        &&& forall|i: int|
                            0 <= i < n ==> #[trigger] rotated_as(
                                results@[i],
                                requests@[i].provider@,
                                requests@[i].dry_run,
                            )
                        &&& forall|i: int|
                            0 <= i < n ==> !#[trigger] rotation_refused(requests@[i].provider@, requests@[i].dry_run)
                    },
                    Err(e) => exists|i: int|
                        0 <= i < n && rotation_refused(requests@[i].provider@, requests@[i].dry_run) && e
                            == ConnectorError::UnsupportedProvider(requests@[i].provider) && forall|j: int|
                            0 <= j < i ==> !#[trigger] rotation_refused(requests@[j].provider@, requests@[j].dry_run),
                }
            }),
    {
        let n = if requests.len() < configs.len() {
            requests.len()
        } else {
            configs.len()
        };
        let mut results: Vec<RotationResult> = Vec::new();
        let mut i: usize = 0;
        while i < n
            invariant
                n <= requests@.len(),
                n <= configs@.len(),
                n == requests@.len() || n == configs@.len(),
                i <= n,
                results@.len() == i,
                forall|k: int|
                    0 <= k < i ==> #[trigger] rotated_as(results@[k], requests@[k].provider@, requests@[k].dry_run),
                forall|k: int| 0 <= k < i ==> !#[trigger] rotation_refused(requests@[k].provider@, requests@[k].dry_run),
            decreases n - i,
        {
            match self.rotate_secret(&requests[i], &configs[i]) {
                Ok(result) => {
                    results.push(result);
                },
                Err(e) => {
                    return Err(e);
                },
            }
            i += 1;
        }
        Ok(results)
    }

    /// Restores `old_value`: the result carries it as the new value.
    pub fn rollback(&self, request: &RotationRequest, old_value: &str, config: &ConnectorConfig) -> (r: Result<
        RotationResult,
        ConnectorError,
    >)
        ensures
            r matches Ok(res) && {
                &&& res.success
                &&& res.old_value is None
                &&& (res.new_value matches Some(v) && v@ == old_value@)
                &&& res.error is None
                &&& res.metadata@.len() == 2
                &&& flag_entry(res.metadata@[0], "rollback"@, true)
                &&& text_entry(res.metadata@[1], "message"@, "Rollback completed"@)
            },
    {
        let mut metadata: Vec<(String, MetadataValue)> = Vec::new();
        metadata.push(("rollback".to_owned(), MetadataValue::Flag(true)));
        metadata.push(("message".to_owned(), MetadataValue::Text("Rollback completed".to_owned())));
        Ok(
            RotationResult {
                success: true,
                old_value: None,
                new_value: Some(old_value.to_owned()),
                error: None,
                metadata,
            },
        )
    }
}

impl Default for ConnectorOrchestrator {
    fn default() -> (r: Self) {
        Self::new()
    }
}

} // verus!
