//! The kubeconfig retrieval flow's decisions: which bucket, key and local
//! file a cluster's credentials live at, and how the fallback fetcher's
//! outcome is interpreted.
//!
//! The subprocess invocation, the cache probe, the file write and the
//! permission change are outside work; the caller feeds their observations
//! through these functions.

use vstd::prelude::*;

use crate::errors::{SimpleError, SimpleErrorKind};
use crate::paths::{
    kubeconfig_bucket_name, kubeconfig_object_key, kubernetes_config_path,
    spec_kubeconfig_bucket_name, spec_kubeconfig_object_key, spec_kubernetes_config_path,
};

verus! {

/// Everything a kubeconfig retrieval needs to know before any outside work:
/// the bucket and key the object is published under, and the local file it
/// is materialized at.
pub struct KubeconfigRequest {
    pub bucket_name: String,
    pub object_key: String,
    pub file_path: String,
}

/// Derive the remote and local names of a cluster's kubeconfig. Pure, so a
/// repeated retrieval lands on the same local file and can reuse it.
pub fn kubeconfig_request(workspace_directory: &str, kubernetes_cluster_id: &str) -> (r:
    KubeconfigRequest)
    ensures
        r.bucket_name@ == spec_kubeconfig_bucket_name(kubernetes_cluster_id@),
        r.object_key@ == spec_kubeconfig_object_key(kubernetes_cluster_id@),
        r.file_path@ == spec_kubernetes_config_path(workspace_directory@, kubernetes_cluster_id@),
{
    KubeconfigRequest {
        bucket_name: kubeconfig_bucket_name(kubernetes_cluster_id),
        object_key: kubeconfig_object_key(kubernetes_cluster_id),
        file_path: kubernetes_config_path(workspace_directory, kubernetes_cluster_id),
    }
}

/// The error surfaced when every fallback fetch attempt came back empty.
pub open spec fn spec_kubeconfig_exhausted_message() -> Seq<char> {
    "file content is empty (retry failed multiple times) - which is not the expected content - what's wrong?"@
}

/// Interpret what the retried fallback fetch produced: the kubeconfig's text
/// when some attempt succeeded, and otherwise the error a caller is handed.
pub fn interpret_kubeconfig_fetch(content: Option<String>) -> (r: Result<String, SimpleError>)
    ensures
        content matches Some(c) ==> r matches Ok(got) && got == c,
        content is None ==> (r matches Err(e) && e.kind is Other && (e.message matches Some(m)
            && m@ == spec_kubeconfig_exhausted_message())),
{
    match content {
        Some(c) => Ok(c),
        None => Err(
            SimpleError::new(
                SimpleErrorKind::Other,
                Some(
                    String::from_str(
                        "file content is empty (retry failed multiple times) - which is not the expected content - what's wrong?",
                    ),
                ),
            ),
        ),
    }
}

} // verus!
