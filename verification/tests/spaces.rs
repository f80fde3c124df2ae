use objstore::errors::EngineErrorCause;
use objstore::model::{Context, Kind};
use objstore::spaces::{GetProgress, Spaces};

fn test_backend() -> Spaces {
    let context = Context::new(
        String::from("exec-1"),
        String::from("/work"),
        String::from("/lib"),
        true,
        None,
        None,
    );
    Spaces::new(
        context,
        String::from("space-id"),
        String::from("my-space"),
        String::from("access"),
        String::from("secret"),
        String::from("ams3"),
    )
}

#[test]
fn new_keeps_every_field() {
    let spaces = test_backend();
    assert_eq!(spaces.id(), "space-id");
    assert_eq!(spaces.name(), "my-space");
    assert_eq!(spaces.region, "ams3");
    assert_eq!(spaces.access_key_id, "access");
    assert_eq!(spaces.secret_access_key, "secret");
    assert_eq!(spaces.context().execution_id(), "exec-1");
    assert_eq!(spaces.kind(), Kind::Spaces);
}

#[test]
fn spaces_does_not_support_the_bucket_lifecycle() {
    let spaces = test_backend();
    assert!(!spaces.kind().supports_bucket_lifecycle());
    assert!(Kind::S3.supports_bucket_lifecycle());
    assert_eq!(spaces.kind().segment(), "spaces");
    assert_eq!(Kind::S3.segment(), "s3");
}

#[test]
fn context_getters_expose_the_construction_values() {
    let spaces = test_backend();
    assert_eq!(spaces.context().workspace_root_dir(), "/work");
    assert_eq!(spaces.context().execution_id(), "exec-1");
    let copy = spaces.context().clone();
    assert_eq!(copy.lib_root_dir, "/lib");
    assert!(copy.test);
    assert_eq!(copy.docker_host, None);
}

#[test]
fn endpoint_is_synthesized_from_the_region() {
    let spaces = test_backend();
    assert_eq!(spaces.endpoint(), "https://ams3.digitaloceanspaces.com");
}

#[test]
fn object_path_is_execution_scoped() {
    let spaces = test_backend();
    assert_eq!(
        spaces.object_path("my-bucket", "cluster.yaml"),
        "/work/exec-1/object-storage/spaces/my-space/my-bucket/cluster.yaml"
    );
}

#[test]
fn is_valid_accepts_the_backend() {
    assert!(test_backend().is_valid().is_ok());
}

#[test]
fn create_bucket_is_a_deterministic_failure() {
    let spaces = test_backend();
    let err = spaces.create_bucket("my-bucket").unwrap_err();
    assert_eq!(err.cause, EngineErrorCause::Unimplemented);
    assert_eq!(
        err.message,
        "create_bucket is not implemented for the Spaces backend (bucket 'my-bucket')"
    );
    // the facade is untouched and still usable afterwards
    assert_eq!(spaces.name(), "my-space");
    assert!(spaces.is_valid().is_ok());
}

#[test]
fn delete_bucket_is_a_deterministic_failure() {
    let spaces = test_backend();
    let err = spaces.delete_bucket("my-bucket").unwrap_err();
    assert_eq!(err.cause, EngineErrorCause::Unimplemented);
    assert_eq!(
        err.message,
        "delete_bucket is not implemented for the Spaces backend (bucket 'my-bucket')"
    );
}

/// A backend double that fails the test when its fetch is invoked.
fn forbidden_fetch() -> bool {
    panic!("a cache hit must not issue any network request");
}

#[test]
fn cache_hit_short_circuits_without_any_fetch() {
    let spaces = test_backend();
    let progress = spaces.get_begin("my-bucket", "cluster.yaml", true);
    let path = match progress {
        GetProgress::CacheHit { ref path } => path.clone(),
        GetProgress::Fetching { .. } => {
            // would reach the fault-injecting backend
            let _ = forbidden_fetch();
            unreachable!()
        },
        _ => panic!("a fresh flow is either a cache hit or fetching"),
    };
    assert_eq!(path, "/work/exec-1/object-storage/spaces/my-space/my-bucket/cluster.yaml");
    let got = spaces.get_result(progress).unwrap();
    assert_eq!(got, "/work/exec-1/object-storage/spaces/my-space/my-bucket/cluster.yaml");
}

#[test]
fn exhausted_fetch_reports_object_bucket_and_budget() {
    let spaces = test_backend();
    let mut progress = spaces.get_begin("my-bucket", "cluster.yaml", false);
    let mut slept: Vec<u64> = Vec::new();
    let mut attempts = 0;
    loop {
        match progress {
            GetProgress::Fetching { .. } => {
                attempts += 1;
                let (next, sleep) = spaces.get_on_attempt(progress, false);
                progress = next;
                if let Some(ms) = sleep {
                    slept.push(ms);
                }
            },
            _ => break,
        }
    }
    assert_eq!(attempts, 5);
    assert_eq!(slept, vec![3000, 3000, 6000, 9000]);
    let err = spaces.get_result(progress).unwrap_err();
    assert_eq!(err.cause, EngineErrorCause::Internal);
    assert_eq!(
        err.message,
        "can't download object 'cluster.yaml' from bucket 'my-bucket' after 5 attempts"
    );
}

#[test]
fn fetch_succeeding_on_the_fourth_attempt_lands_on_the_resolved_path() {
    let spaces = test_backend();
    let mut progress = spaces.get_begin("my-bucket", "cluster.yaml", false);
    let mut attempt = 0;
    loop {
        match progress {
            GetProgress::Fetching { .. } => {
                attempt += 1;
                let succeeded = attempt == 4;
                let (next, _sleep) = spaces.get_on_attempt(progress, succeeded);
                progress = next;
            },
            _ => break,
        }
    }
    assert_eq!(attempt, 4);
    let got = spaces.get_result(progress).unwrap();
    assert_eq!(got, "/work/exec-1/object-storage/spaces/my-space/my-bucket/cluster.yaml");
}
