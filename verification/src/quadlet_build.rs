//! The `[Build]` section of a Quadlet `.build` file.

use vstd::prelude::*;

use crate::container::PullPolicy;
use crate::downgrade::{older, DowngradeErr, DowngradeError, PodmanVersion};
use crate::quadlet_container::Dns;
use crate::secret::Secret;

verus! {

/// Where a build finds a file or its working directory: a path or a URL, as text.
#[derive(Debug, Clone, PartialEq, Eq)]
pub enum Context {
    Path(String),
    Url(String),
}

/// Options for the `[Build]` section of a `.build` Quadlet file.
#[derive(Debug, Clone, PartialEq, Eq)]
pub struct Build {
    /// Image annotations, each "KEY=VALUE".
    pub annotation: Vec<String>,
    /// The architecture of the image, overriding the host's.
    pub arch: Option<String>,
    /// Path of the authentication file.
    pub auth_file: Option<String>,
    /// Network-scoped DNS resolvers for the build container.
    pub dns: Dns,
    /// Custom DNS options.
    pub dns_option: Vec<String>,
    /// Custom DNS search domains.
    pub dns_search: Vec<String>,
    /// Values added to the environment of the image, each "NAME=VALUE".
    pub environment: Vec<String>,
    /// The Containerfile with the instructions for the build.
    pub file: Option<Context>,
    /// Intermediate containers are always removed, even when the build fails.
    pub force_rm: bool,
    /// Additional groups of the primary user in the container.
    pub group_add: Vec<String>,
    /// The name given to the image that the build makes.
    pub image_tag: String,
    /// Image labels, each "KEY=VALUE".
    pub label: Vec<String>,
    /// Network namespaces for `RUN` instructions.
    pub network: Vec<String>,
    /// Arguments passed directly to the end of `podman build`.
    pub podman_args: Option<String>,
    /// The image pull policy.
    pub pull: Option<PullPolicy>,
    /// Secrets for the stages of the build.
    pub secret: Vec<Secret>,
    /// The working directory of `podman build`.
    pub set_working_directory: Option<Context>,
    /// The build stage to build.
    pub target: Option<String>,
    /// HTTPS and the verification of certificates are required when contacting registries.
    pub tls_verify: Option<bool>,
    /// The architecture variant of the image, overriding the default.
    pub variant: Option<String>,
    /// Volumes mounted in the containers of `RUN` instructions.
    pub volume: Vec<String>,
}

impl Build {
    /// Makes the build fit Podman `version`: `.build` files are supported from 5.2 on, and are
    /// an error before; the build itself is left as it is.
    pub fn downgrade(&mut self, version: PodmanVersion) -> (r: Result<(), DowngradeError>)
        ensures
            *final(self) == *old(self),
            match r {
                Ok(()) => !older(version, PodmanVersion { major: 5, minor: 2 }),
                Err(e) => older(version, PodmanVersion { major: 5, minor: 2 }) && e@ == (
                DowngradeErr::Kind {
                    kind: "build"@,
                    supported_version: PodmanVersion { major: 5, minor: 2 },
                }),
            },
    {
        if version.is_older_than(PodmanVersion::new(5, 2)) {
            return Err(
                DowngradeError::Kind {
                    kind: "build".to_owned(),
                    supported_version: PodmanVersion::new(5, 2),
                },
            );
        }
        Ok(())
    }
}

} // verus!
