use objstore::errors::EngineErrorCause;
use objstore::secure::{check_credential_mode, credential_file_mode, CREDENTIAL_FILE_MODE};

#[test]
fn credential_mode_is_owner_read_only() {
    assert_eq!(CREDENTIAL_FILE_MODE, 0o400);
    let mode = credential_file_mode();
    assert_eq!(mode & 0o400, 0o400); // owner read
    assert_eq!(mode & 0o200, 0); // no owner write
    assert_eq!(mode & 0o100, 0); // no owner execute
    assert_eq!(mode & 0o077, 0); // no group or world access
}

#[test]
fn owner_read_only_mode_is_accepted() {
    assert!(check_credential_mode(0o400).is_ok());
    // extra non-permission bits (the file-type bits of a stat mode) are fine
    assert!(check_credential_mode(0o100400).is_ok());
}

#[test]
fn group_readable_credentials_are_rejected() {
    let err = check_credential_mode(0o440).unwrap_err();
    assert_eq!(err.cause, EngineErrorCause::Internal);
    assert_eq!(err.message, "credential file permissions are not owner-read-only");
}

#[test]
fn world_readable_credentials_are_rejected() {
    assert!(check_credential_mode(0o644).is_err());
    assert!(check_credential_mode(0o777).is_err());
}

#[test]
fn owner_writable_credentials_are_rejected() {
    assert!(check_credential_mode(0o600).is_err());
}
