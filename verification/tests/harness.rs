use objstore::harness::{build_platform_local_docker, engine_run_test, execution_id, generate_id};
use objstore::model::Context;

#[test]
fn generated_id_is_a_dns_safe_label() {
    for _ in 0..32 {
        let id = generate_id();
        assert_eq!(id.len(), 15);
        let first = id.chars().next().unwrap();
        assert!(first.is_ascii_lowercase() && first.is_ascii_alphabetic());
        assert!(id.chars().all(|c| c.is_ascii_lowercase() || c.is_ascii_digit()));
    }
}

#[test]
fn generated_ids_differ() {
    // fifteen random alphanumerics colliding twice in a row would be a sign
    // the generator is not sampling at all
    let a = generate_id();
    let b = generate_id();
    assert_ne!(a, b);
}

#[test]
fn execution_id_is_a_safe_path_segment() {
    let id = execution_id();
    assert!(!id.is_empty());
    assert!(!id.contains(':'));
    assert!(!id.contains('.'));
    assert!(!id.contains('+'));
}

#[test]
fn engine_run_test_hands_back_the_test_name() {
    let name = engine_run_test(|| String::from("my-test"));
    assert_eq!(name, "my-test");
}

#[test]
fn local_docker_platform_is_fixed() {
    let context = Context::new(
        String::from("exec-1"),
        String::from("/work"),
        String::from("/lib"),
        true,
        None,
        None,
    );
    let docker = build_platform_local_docker(&context);
    assert_eq!(docker.id, "oxqlm3r99vwcmvuj");
    assert_eq!(docker.name, "qovery-local-docker");
    assert_eq!(docker.context.execution_id, "exec-1");
    assert_eq!(docker.context.workspace_root_dir, "/work");
}
