use objstore::model::Kind;
use objstore::paths::{
    fallback_download_path, kubeconfig_bucket_name, kubeconfig_object_key, kubernetes_config_path,
    resolve_object_path, s3_object_url, workspace_directory,
};

#[test]
fn workspace_directory_joins_root_execution_and_purpose() {
    let dir = workspace_directory("/var/lib/qovery", "exec-1", "object-storage/spaces/my-space");
    assert_eq!(dir, "/var/lib/qovery/exec-1/object-storage/spaces/my-space");
}

#[test]
fn resolved_object_path_follows_the_workspace_layout() {
    let path = resolve_object_path(
        "/work",
        "2020-07-01T10-00-00-000000000-00-00",
        Kind::Spaces,
        "my-space",
        "my-bucket",
        "cluster.yaml",
    );
    assert_eq!(
        path,
        "/work/2020-07-01T10-00-00-000000000-00-00/object-storage/spaces/my-space/my-bucket/cluster.yaml"
    );
}

#[test]
fn resolved_object_path_uses_the_backend_kind_segment() {
    let path = resolve_object_path("/w", "e", Kind::S3, "store", "b", "k");
    assert_eq!(path, "/w/e/object-storage/s3/store/b/k");
}

#[test]
fn path_resolution_is_deterministic_across_calls() {
    let first = resolve_object_path("/w", "exec", Kind::Spaces, "n", "bucket", "key");
    let second = resolve_object_path("/w", "exec", Kind::Spaces, "n", "bucket", "key");
    assert_eq!(first, second);
}

#[test]
fn kubeconfig_bucket_name_is_prefixed() {
    assert_eq!(kubeconfig_bucket_name("my-cluster"), "qovery-kubeconfigs-my-cluster");
}

#[test]
fn kubeconfig_object_key_is_the_cluster_yaml() {
    assert_eq!(kubeconfig_object_key("my-cluster"), "my-cluster.yaml");
}

#[test]
fn kubernetes_config_path_lands_in_the_workspace() {
    assert_eq!(
        kubernetes_config_path("/tmp", "my-cluster"),
        "/tmp/kubernetes_config_my-cluster"
    );
}

#[test]
fn s3_object_url_names_bucket_and_key() {
    assert_eq!(s3_object_url("my-bucket", "my-key.yaml"), "s3://my-bucket/my-key.yaml");
}

#[test]
fn fallback_download_path_is_under_tmp() {
    assert_eq!(fallback_download_path("my-key.yaml"), "/tmp/my-key.yaml");
}
