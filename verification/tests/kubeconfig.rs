use objstore::errors::SimpleErrorKind;
use objstore::kubeconfig::{interpret_kubeconfig_fetch, kubeconfig_request};

#[test]
fn kubeconfig_request_derives_all_three_names() {
    let request = kubeconfig_request("/tmp", "my-cluster");
    assert_eq!(request.bucket_name, "qovery-kubeconfigs-my-cluster");
    assert_eq!(request.object_key, "my-cluster.yaml");
    assert_eq!(request.file_path, "/tmp/kubernetes_config_my-cluster");
}

#[test]
fn kubeconfig_request_is_deterministic() {
    let first = kubeconfig_request("/tmp", "c1");
    let second = kubeconfig_request("/tmp", "c1");
    assert_eq!(first.file_path, second.file_path);
    assert_eq!(first.bucket_name, second.bucket_name);
    assert_eq!(first.object_key, second.object_key);
}

#[test]
fn fetched_content_passes_through() {
    let got = interpret_kubeconfig_fetch(Some(String::from("apiVersion: v1\n"))).unwrap();
    assert_eq!(got, "apiVersion: v1\n");
}

#[test]
fn exhausted_fetch_surfaces_the_empty_content_error() {
    let err = interpret_kubeconfig_fetch(None).unwrap_err();
    assert_eq!(err.kind, SimpleErrorKind::Other);
    assert_eq!(
        err.message.as_deref(),
        Some(
            "file content is empty (retry failed multiple times) - which is not the expected content - what's wrong?"
        )
    );
}
