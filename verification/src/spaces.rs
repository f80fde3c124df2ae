//! The DigitalOcean Spaces backend: the facade callers retrieve objects
//! through, and the per-call state machine `get` follows.
//!
//! Spaces speaks the generic S3 protocol against a synthesized custom
//! endpoint. The network attempt itself, the cache probe, and the sleeps
//! between attempts are outside work: the caller drives them and feeds every
//! observation back into [`Spaces::get_begin`] and [`Spaces::get_on_attempt`],
//! whose contracts pin what happens next.

use vstd::prelude::*;

use crate::errors::{EngineError, EngineErrorCause};
use crate::model::{Context, Kind, StringPath};
use crate::paths::{resolve_object_path, spec_object_path};
use crate::retry::{delay_after, RetryDecision, RetryState, MAX_ATTEMPTS};

verus! {

/// One object-storage backend: a Spaces region plus static credentials.
/// Immutable after construction.
pub struct Spaces {
    pub context: Context,
    pub id: String,
    pub name: String,
    pub access_key_id: String,
    pub secret_access_key: String,
    pub region: String,
}

/// Where one `get` call stands. `CacheHit`, `Succeeded` and `Exhausted` are
/// terminal; from `Fetching` the caller performs one network attempt and
/// reports back.
pub enum GetProgress {
    /// A file already sits at the resolved path; no network request is made.
    CacheHit { path: StringPath },
    /// The object must be fetched; `retry` counts the failed attempts so far.
    Fetching { path: StringPath, bucket_name: String, object_key: String, retry: RetryState },
    /// An attempt succeeded and the object sits at `path`.
    Succeeded { path: StringPath },
    /// Every allowed attempt failed.
    Exhausted { error: EngineError },
}

/// The error message surfaced when the retry budget is spent.
pub open spec fn spec_exhausted_message(bucket_name: Seq<char>, object_key: Seq<char>) -> Seq<
    char,
> {
    "can't download object '"@ + object_key + "' from bucket '"@ + bucket_name
        + "' after 5 attempts"@
}

fn exhausted_message(bucket_name: &str, object_key: &str) -> (r: String)
    ensures
        r@ == spec_exhausted_message(bucket_name@, object_key@),
{
    let mut s = String::from_str("can't download object '");
    s.append(object_key);
    s.append("' from bucket '");
    s.append(bucket_name);
    s.append("' after 5 attempts");
    proof {
        assert(s@ =~= spec_exhausted_message(bucket_name@, object_key@));
    }
    s
}

/// The message attached to a bucket-lifecycle call the backend refuses.
pub open spec fn spec_unsupported_message(operation: Seq<char>, bucket_name: Seq<char>) -> Seq<
    char,
> {
    operation + " is not implemented for the Spaces backend (bucket '"@ + bucket_name + "')"@
}

fn unsupported_message(operation: &str, bucket_name: &str) -> (r: String)
    ensures
        r@ == spec_unsupported_message(operation@, bucket_name@),
{
    let mut s = String::from_str(operation);
    s.append(" is not implemented for the Spaces backend (bucket '");
    s.append(bucket_name);
    s.append("')");
    proof {
        assert(s@ =~= spec_unsupported_message(operation@, bucket_name@));
    }
    s
}

impl Spaces {
    pub fn new(
        context: Context,
        id: String,
        name: String,
        access_key_id: String,
        secret_access_key: String,
        region: String,
    ) -> (s: Spaces)
        ensures
            s.context == context,
            s.id == id,
            s.name == name,
            s.access_key_id == access_key_id,
            s.secret_access_key == secret_access_key,
            s.region == region,
    {
        Spaces { context, id, name, access_key_id, secret_access_key, region }
    }

    pub fn context(&self) -> (r: &Context)
        ensures
            *r == self.context,
    {
        &self.context
    }

    pub fn kind(&self) -> (r: Kind)
        ensures
            r == Kind::Spaces,
    {
        Kind::Spaces
    }

    pub fn id(&self) -> (r: &str)
        ensures
            r@ == self.id@,
    {
        self.id.as_str()
    }

    pub fn name(&self) -> (r: &str)
        ensures
            r@ == self.name@,
    {
        self.name.as_str()
    }

    /// Credential/connectivity validation is a documented gap: today it
    /// accepts every backend.
    pub fn is_valid(&self) -> (r: Result<(), EngineError>)
        ensures
            r is Ok,
    {
        Ok(())
    }

    /// The synthesized endpoint Spaces is reached at:
    /// `https://{region}.digitaloceanspaces.com`.
    pub open spec fn spec_endpoint(&self) -> Seq<char> {
        "https://"@ + self.region@ + ".digitaloceanspaces.com"@
    }

    /// See [`Spaces::spec_endpoint`].
    pub fn endpoint(&self) -> (r: String)
        ensures
            r@ == self.spec_endpoint(),
    {
        let mut s = String::from_str("https://");
        s.append(self.region.as_str());
        s.append(".digitaloceanspaces.com");
        proof {
            assert(s@ =~= self.spec_endpoint());
        }
        s
    }

    /// The local path a (bucket, key) pair resolves to under this backend.
    pub open spec fn spec_object_path_of(
        &self,
        bucket_name: Seq<char>,
        object_key: Seq<char>,
    ) -> Seq<char> {
        spec_object_path(
            self.context.workspace_root_dir@,
            self.context.execution_id@,
            Kind::Spaces,
            self.name@,
            bucket_name,
            object_key,
        )
    }

    /// See [`Spaces::spec_object_path_of`].
    pub fn object_path(&self, bucket_name: &str, object_key: &str) -> (r: String)
        ensures
            r@ == self.spec_object_path_of(bucket_name@, object_key@),
    {
        resolve_object_path(
            self.context.workspace_root_dir.as_str(),
            self.context.execution_id.as_str(),
            Kind::Spaces,
            self.name.as_str(),
            bucket_name,
            object_key,
        )
    }

    /// Bucket creation is not implemented for Spaces: calling it is a
    /// deterministic failure, never a silent no-op, and the backend itself
    /// is left untouched.
    pub fn create_bucket(&self, bucket_name: &str) -> (r: Result<(), EngineError>)
        ensures
            r matches Err(e) && e.cause is Unimplemented && e.message@ == spec_unsupported_message(
                "create_bucket"@,
                bucket_name@,
            ),
    {
        Err(
            EngineError::new(
                EngineErrorCause::Unimplemented,
                unsupported_message("create_bucket", bucket_name),
            ),
        )
    }

    /// Bucket deletion is not implemented for Spaces; see
    /// [`Spaces::create_bucket`].
    pub fn delete_bucket(&self, bucket_name: &str) -> (r: Result<(), EngineError>)
        ensures
            r matches Err(e) && e.cause is Unimplemented && e.message@ == spec_unsupported_message(
                "delete_bucket"@,
                bucket_name@,
            ),
    {
        Err(
            EngineError::new(
                EngineErrorCause::Unimplemented,
                unsupported_message("delete_bucket", bucket_name),
            ),
        )
    }

    /// Start a `get`: resolve the local path and fold in the caller's cache
    /// probe of that path. With the file present the flow ends at once in
    /// `CacheHit` — no fetch is ever issued for it; otherwise fetching starts
    /// with a fresh retry budget.
    pub fn get_begin(&self, bucket_name: &str, object_key: &str, file_exists_at_path: bool) -> (p:
        GetProgress)
        ensures
            file_exists_at_path ==> (p matches GetProgress::CacheHit { path } && path@
                == self.spec_object_path_of(bucket_name@, object_key@)),
            !file_exists_at_path ==> (p matches GetProgress::Fetching {
                path,
                bucket_name: b,
                object_key: k,
                retry,
            } && path@ == self.spec_object_path_of(bucket_name@, object_key@) && b@ == bucket_name@
                && k@ == object_key@ && retry.failures == 0),
    {
        let path = self.object_path(bucket_name, object_key);
        if file_exists_at_path {
            GetProgress::CacheHit { path }
        } else {
            GetProgress::Fetching {
                path,
                bucket_name: String::from_str(bucket_name),
                object_key: String::from_str(object_key),
                retry: RetryState::begin(),
            }
        }
    }

    /// Fold one attempt's outcome into the flow. On success the flow ends at
    /// the resolved path. On failure either a retry is scheduled — the second
    /// component says how many milliseconds to sleep first — or, once
    /// [`MAX_ATTEMPTS`] attempts have failed, the flow ends with an internal
    /// error naming the object, the bucket and the spent budget.
    pub fn get_on_attempt(&self, progress: GetProgress, attempt_succeeded: bool) -> (r: (
        GetProgress,
        Option<u64>,
    ))
        requires
            progress matches GetProgress::Fetching { retry, .. } && retry.failures < MAX_ATTEMPTS,
        ensures
            (progress matches GetProgress::Fetching {
                path: p0,
                bucket_name: b0,
                object_key: k0,
                retry: rt0,
            } && (if attempt_succeeded {
                &&& r.0 matches GetProgress::Succeeded { path: p1 } && p1 == p0
                &&& r.1 is None
            } else if rt0.failures + 1 < MAX_ATTEMPTS {
                &&& r.0 matches GetProgress::Fetching {
                    path: p1,
                    bucket_name: b1,
                    object_key: k1,
                    retry: rt1,
                } && p1 == p0 && b1 == b0 && k1 == k0 && rt1.failures == rt0.failures + 1
                &&& r.1 == Some(delay_after((rt0.failures + 1) as nat))
            } else {
                &&& r.0 matches GetProgress::Exhausted { error } && error.cause is Internal
                    && error.message@ == spec_exhausted_message(b0@, k0@)
                &&& r.1 is None
            })),
    {
        match progress {
            GetProgress::Fetching { path, bucket_name, object_key, retry } => {
                if attempt_succeeded {
                    (GetProgress::Succeeded { path }, None)
                } else {
                    let mut retry = retry;
                    let decision = retry.on_failure();
                    match decision {
                        RetryDecision::RetryAfterMs(ms) => (
                            GetProgress::Fetching { path, bucket_name, object_key, retry },
                            Some(ms),
                        ),
                        RetryDecision::GiveUp => {
                            let error = EngineError::new(
                                EngineErrorCause::Internal,
                                exhausted_message(bucket_name.as_str(), object_key.as_str()),
                            );
                            (GetProgress::Exhausted { error }, None)
                        },
                    }
                }
            },
            _ => {
                // unreachable under the precondition
                (progress, None)
            },
        }
    }

    /// Turn a finished flow into what `get` hands its caller: the local path
    /// of the materialized object, or the error that ended the flow.
    pub fn get_result(&self, progress: GetProgress) -> (r: Result<StringPath, EngineError>)
        requires
            !(progress is Fetching),
        ensures
            (progress matches GetProgress::CacheHit { path } ==> r matches Ok(p) && p == path),
            (progress matches GetProgress::Succeeded { path } ==> r matches Ok(p) && p == path),
            (progress matches GetProgress::Exhausted { error } ==> r matches Err(e) && e
                == error),
    {
        match progress {
            GetProgress::CacheHit { path } => Ok(path),
            GetProgress::Succeeded { path } => Ok(path),
            GetProgress::Exhausted { error } => Err(error),
            GetProgress::Fetching { path, .. } => Ok(path),  // unreachable under the precondition
        }
    }
}

/// Law: the cache short-circuit. When a file already exists at the resolved
/// path, beginning a `get` ends the flow immediately — the state is a cache
/// hit carrying exactly the resolved path, never `Fetching`, and the fetch
/// transition ([`Spaces::get_on_attempt`]) requires a `Fetching` state, so no
/// network attempt can be folded into such a flow.
pub proof fn lemma_cache_short_circuit(s: Spaces, p: GetProgress, bucket_name: Seq<char>, object_key: Seq<char>)
    requires
        p matches GetProgress::CacheHit { path } && path@ == s.spec_object_path_of(
            bucket_name,
            object_key,
        ),
    ensures
        !(p is Fetching),
        p matches GetProgress::CacheHit { path } && path@ == s.spec_object_path_of(
            bucket_name,
            object_key,
        ),
{
}

} // verus!
