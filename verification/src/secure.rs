//! The secure materializer's policy: credential-bearing downloads must end
//! up owner-read-only on disk.
//!
//! Applying the permission bits is filesystem work done by the caller; this
//! module fixes which mode is applied and decides, from the mode read back,
//! whether the materialization may be accepted.

use vstd::prelude::*;

use crate::errors::{EngineError, EngineErrorCause};

verus! {

/// The mode applied to a materialized credential file: owner read only.
pub const CREDENTIAL_FILE_MODE: u32 = 0o400;

/// A mode whose permission bits allow owner read and nothing else: no owner
/// write or execute, and no group or world access at all.
pub open spec fn is_owner_read_only(mode: u32) -> bool {
    mode & 0o777 == 0o400
}

/// The mode to apply to a credential file after writing it.
pub fn credential_file_mode() -> (r: u32)
    ensures
        r == CREDENTIAL_FILE_MODE,
        is_owner_read_only(r),
{
    proof {
        lemma_credential_mode_owner_read_only();
    }
    CREDENTIAL_FILE_MODE
}

/// Accept or reject a credential file from the mode read back off disk: a
/// credential file left readable beyond its owner must never be silently
/// accepted.
pub fn check_credential_mode(mode: u32) -> (r: Result<(), EngineError>)
    ensures
        r is Ok <==> is_owner_read_only(mode),
        r matches Err(e) ==> e.cause is Internal,
{
    if mode & 0o777 == 0o400 {
        Ok(())
    } else {
        Err(
            EngineError::new(
                EngineErrorCause::Internal,
                String::from_str("credential file permissions are not owner-read-only"),
            ),
        )
    }
}

/// Law: permission enforcement. The mode the materializer applies grants the
/// owner read access and withholds every write, execute, group and world bit.
pub proof fn lemma_credential_mode_owner_read_only()
    ensures
        is_owner_read_only(CREDENTIAL_FILE_MODE),
        CREDENTIAL_FILE_MODE & 0o400 != 0,  // owner read
        CREDENTIAL_FILE_MODE & 0o200 == 0,  // no owner write
        CREDENTIAL_FILE_MODE & 0o100 == 0,  // no owner execute
        CREDENTIAL_FILE_MODE & 0o077 == 0,  // no group or world access
{
    assert(0o400u32 & 0o777 == 0o400) by (bit_vector);
    assert(0o400u32 & 0o400 != 0) by (bit_vector);
    assert(0o400u32 & 0o200 == 0) by (bit_vector);
    assert(0o400u32 & 0o100 == 0) by (bit_vector);
    assert(0o400u32 & 0o077 == 0) by (bit_vector);
}

} // verus!
