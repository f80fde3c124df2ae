//! The data model shared by every retrieval call: the provider kind, the
//! execution context, and small helper types.

use vstd::prelude::*;

verus! {

/// A local file path, kept as plain text.
pub type StringPath = String;

/// The closed set of object-storage providers a backend can speak to.
#[derive(Clone, Copy, Debug, PartialEq, Eq, Structural)]
pub enum Kind {
    S3,
    Spaces,
}

impl Kind {
    /// The path segment that names this provider inside the workspace tree.
    pub open spec fn spec_segment(self) -> Seq<char> {
        match self {
            Kind::S3 => "s3"@,
            Kind::Spaces => "spaces"@,
        }
    }

    /// The path segment that names this provider inside the workspace tree.
    pub fn segment(&self) -> (r: &'static str)
        ensures
            r@ == self.spec_segment(),
    {
        match self {
            Kind::S3 => "s3",
            Kind::Spaces => "spaces",
        }
    }

    /// Whether this provider implements bucket creation and deletion.
    pub fn supports_bucket_lifecycle(&self) -> (r: bool)
        ensures
            r == (*self is S3),
    {
        match self {
            Kind::S3 => true,
            Kind::Spaces => false,
        }
    }
}

/// Optional run options carried by an execution context.
#[derive(Debug)]
pub struct Metadata {
    pub dry_run_deploy: Option<bool>,
    pub resource_expiration_in_seconds: Option<u32>,
    pub docker_build_options: Option<String>,
    pub forced_upgrade: Option<bool>,
}

impl Clone for Metadata {
    fn clone(&self) -> (r: Self)
        ensures
            r == *self,
    {
        Metadata {
            dry_run_deploy: self.dry_run_deploy,
            resource_expiration_in_seconds: self.resource_expiration_in_seconds,
            docker_build_options: match &self.docker_build_options {
                Some(s) => Some(s.clone()),
                None => None,
            },
            forced_upgrade: self.forced_upgrade,
        }
    }
}

/// The execution-scoped environment of a retrieval: a unique execution
/// identifier, the workspace root every artifact lands under, and metadata.
/// Never mutated by this layer.
#[derive(Debug)]
pub struct Context {
    pub execution_id: String,
    pub workspace_root_dir: String,
    pub lib_root_dir: String,
    pub test: bool,
    pub docker_host: Option<String>,
    pub metadata: Option<Metadata>,
}

impl Context {
    pub fn new(
        execution_id: String,
        workspace_root_dir: String,
        lib_root_dir: String,
        test: bool,
        docker_host: Option<String>,
        metadata: Option<Metadata>,
    ) -> (c: Context)
        ensures
            c.execution_id == execution_id,
            c.workspace_root_dir == workspace_root_dir,
            c.lib_root_dir == lib_root_dir,
            c.test == test,
            c.docker_host == docker_host,
            c.metadata == metadata,
    {
        Context { execution_id, workspace_root_dir, lib_root_dir, test, docker_host, metadata }
    }

    pub fn execution_id(&self) -> (r: &str)
        ensures
            r@ == self.execution_id@,
    {
        self.execution_id.as_str()
    }

    pub fn workspace_root_dir(&self) -> (r: &str)
        ensures
            r@ == self.workspace_root_dir@,
    {
        self.workspace_root_dir.as_str()
    }
}

impl Clone for Context {
    fn clone(&self) -> (r: Self)
        ensures
            r == *self,
    {
        Context {
            execution_id: self.execution_id.clone(),
            workspace_root_dir: self.workspace_root_dir.clone(),
            lib_root_dir: self.lib_root_dir.clone(),
            test: self.test,
            docker_host: match &self.docker_host {
                Some(s) => Some(s.clone()),
                None => None,
            },
            metadata: match &self.metadata {
                Some(m) => Some(m.clone()),
                None => None,
            },
        }
    }
}

} // verus!
