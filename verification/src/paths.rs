//! The workspace path resolver: deterministic, execution-scoped local paths
//! for remote objects, and the fixed names the fallback fetcher uses.

use vstd::prelude::*;

use crate::model::Kind;

verus! {

/// The directory, under the workspace root, that one execution's files of a
/// given purpose land in.
pub open spec fn spec_workspace_directory(
    workspace_root: Seq<char>,
    execution_id: Seq<char>,
    dir_name: Seq<char>,
) -> Seq<char> {
    workspace_root + "/"@ + execution_id + "/"@ + dir_name
}

/// See [`spec_workspace_directory`].
pub fn workspace_directory(workspace_root: &str, execution_id: &str, dir_name: &str) -> (r: String)
    ensures
        r@ == spec_workspace_directory(workspace_root@, execution_id@, dir_name@),
{
    let mut s = String::from_str(workspace_root);
    s.append("/");
    s.append(execution_id);
    s.append("/");
    s.append(dir_name);
    proof {
        assert(s@ =~= spec_workspace_directory(workspace_root@, execution_id@, dir_name@));
    }
    s
}

/// The local path a remote object resolves to:
/// `{workspace_root}/{execution_id}/object-storage/{kind}/{backend_name}/{bucket}/{key}`.
pub open spec fn spec_object_path(
    workspace_root: Seq<char>,
    execution_id: Seq<char>,
    kind: Kind,
    backend_name: Seq<char>,
    bucket_name: Seq<char>,
    object_key: Seq<char>,
) -> Seq<char> {
    spec_workspace_directory(
        workspace_root,
        execution_id,
        "object-storage/"@ + kind.spec_segment() + "/"@ + backend_name,
    ) + "/"@ + bucket_name + "/"@ + object_key
}

/// Derive the local path for a remote object. A pure function of its inputs:
/// two retrievals of the same (context, backend, bucket, key) always land on
/// the same file, which is what makes the cache short-circuit sound.
pub fn resolve_object_path(
    workspace_root: &str,
    execution_id: &str,
    kind: Kind,
    backend_name: &str,
    bucket_name: &str,
    object_key: &str,
) -> (r: String)
    ensures
        r@ == spec_object_path(
            workspace_root@,
            execution_id@,
            kind,
            backend_name@,
            bucket_name@,
            object_key@,
        ),
{
    let mut dir_name = String::from_str("object-storage/");
    dir_name.append(kind.segment());
    dir_name.append("/");
    dir_name.append(backend_name);
    let mut s = workspace_directory(workspace_root, execution_id, dir_name.as_str());
    s.append("/");
    s.append(bucket_name);
    s.append("/");
    s.append(object_key);
    proof {
        assert(s@ =~= spec_object_path(
            workspace_root@,
            execution_id@,
            kind,
            backend_name@,
            bucket_name@,
            object_key@,
        ));
    }
    s
}

/// Law: path resolution is deterministic. Any two results of resolving the
/// same (workspace root, execution id, backend kind, backend name, bucket,
/// key) are the same path.
pub proof fn lemma_path_determinism(
    workspace_root: Seq<char>,
    execution_id: Seq<char>,
    kind: Kind,
    backend_name: Seq<char>,
    bucket_name: Seq<char>,
    object_key: Seq<char>,
    r1: Seq<char>,
    r2: Seq<char>,
)
    requires
        r1 == spec_object_path(
            workspace_root,
            execution_id,
            kind,
            backend_name,
            bucket_name,
            object_key,
        ),
        r2 == spec_object_path(
            workspace_root,
            execution_id,
            kind,
            backend_name,
            bucket_name,
            object_key,
        ),
    ensures
        r1 == r2,
{
}

/// The bucket that holds a cluster's kubeconfig objects.
pub open spec fn spec_kubeconfig_bucket_name(cluster_id: Seq<char>) -> Seq<char> {
    "qovery-kubeconfigs-"@ + cluster_id
}

/// See [`spec_kubeconfig_bucket_name`].
pub fn kubeconfig_bucket_name(cluster_id: &str) -> (r: String)
    ensures
        r@ == spec_kubeconfig_bucket_name(cluster_id@),
{
    let mut s = String::from_str("qovery-kubeconfigs-");
    s.append(cluster_id);
    s
}

/// The object key a cluster's kubeconfig is published under.
pub open spec fn spec_kubeconfig_object_key(cluster_id: Seq<char>) -> Seq<char> {
    cluster_id + ".yaml"@
}

/// See [`spec_kubeconfig_object_key`].
pub fn kubeconfig_object_key(cluster_id: &str) -> (r: String)
    ensures
        r@ == spec_kubeconfig_object_key(cluster_id@),
{
    let mut s = String::from_str(cluster_id);
    s.append(".yaml");
    s
}

/// The local file a cluster's kubeconfig is materialized at.
pub open spec fn spec_kubernetes_config_path(
    workspace_directory: Seq<char>,
    cluster_id: Seq<char>,
) -> Seq<char> {
    workspace_directory + "/kubernetes_config_"@ + cluster_id
}

/// See [`spec_kubernetes_config_path`].
pub fn kubernetes_config_path(workspace_directory: &str, kubernetes_cluster_id: &str) -> (r:
    String)
    ensures
        r@ == spec_kubernetes_config_path(workspace_directory@, kubernetes_cluster_id@),
{
    let mut s = String::from_str(workspace_directory);
    s.append("/kubernetes_config_");
    s.append(kubernetes_cluster_id);
    proof {
        assert(s@ =~= spec_kubernetes_config_path(workspace_directory@, kubernetes_cluster_id@));
    }
    s
}

/// The `s3://{bucket}/{key}` form of an object reference, as handed to the
/// command-line fallback fetcher.
pub open spec fn spec_s3_object_url(bucket_name: Seq<char>, object_key: Seq<char>) -> Seq<char> {
    "s3://"@ + bucket_name + "/"@ + object_key
}

/// See [`spec_s3_object_url`].
pub fn s3_object_url(bucket_name: &str, object_key: &str) -> (r: String)
    ensures
        r@ == spec_s3_object_url(bucket_name@, object_key@),
{
    let mut s = String::from_str("s3://");
    s.append(bucket_name);
    s.append("/");
    s.append(object_key);
    proof {
        assert(s@ =~= spec_s3_object_url(bucket_name@, object_key@));
    }
    s
}

/// The fixed temporary destination the command-line fallback downloads to.
pub open spec fn spec_fallback_download_path(object_key: Seq<char>) -> Seq<char> {
    "/tmp/"@ + object_key
}

/// See [`spec_fallback_download_path`].
pub fn fallback_download_path(object_key: &str) -> (r: String)
    ensures
        r@ == spec_fallback_download_path(object_key@),
{
    let mut s = String::from_str("/tmp/");
    s.append(object_key);
    s
}

} // verus!
