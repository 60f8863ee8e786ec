//! The `[Artifact]` section of a Quadlet `.artifact` file.

use vstd::prelude::*;

use crate::downgrade::{older, DowngradeErr, DowngradeError, PodmanVersion};
use crate::image::DecryptionKey;

verus! {

/// Options for the `[Artifact]` section of a `.artifact` Quadlet file.
#[derive(Debug, Clone, PartialEq, Eq)]
pub struct Artifact {
    /// The artifact to pull from a registry onto the local machine.
    pub artifact: String,
    /// Path of the authentication file.
    pub auth_file: Option<String>,
    /// Use certificates at path (*.crt, *.cert, *.key) to connect to the registry.
    pub cert_dir: Option<String>,
    /// The credentials to use when contacting the registry: `[username[:password]]`.
    pub creds: Option<String>,
    /// The key and optional passphrase to be used for decryption of artifacts.
    pub decryption_key: Option<DecryptionKey>,
    /// Arguments passed directly to the end of the `podman artifact pull` command.
    pub podman_args: Option<String>,
    /// Suppress output information when pulling artifacts.
    pub quiet: bool,
    /// Number of times to retry the artifact pull when a HTTP error occurs.
    pub retry: Option<u64>,
    /// Delay between retries.
    pub retry_delay: Option<String>,
    /// Require HTTPS and verification of certificates when contacting registries.
    pub tls_verify: Option<bool>,
}

impl Artifact {
    /// Makes the artifact fit Podman `version`: `.artifact` files are supported from 5.7 on, and
    /// are an error before; the artifact itself is left as it is.
    pub fn downgrade(&mut self, version: PodmanVersion) -> (r: Result<(), DowngradeError>)
        ensures
            *final(self) == *old(self),
            match r {
                Ok(()) => !older(version, PodmanVersion { major: 5, minor: 7 }),
                Err(e) => older(version, PodmanVersion { major: 5, minor: 7 }) && e@ == (
                DowngradeErr::Kind {
                    kind: "artifact"@,
                    supported_version: PodmanVersion { major: 5, minor: 7 },
                }),
            },
    {
        if version.is_older_than(PodmanVersion::new(5, 7)) {
            return Err(
                DowngradeError::Kind {
                    kind: "artifact".to_owned(),
                    supported_version: PodmanVersion::new(5, 7),
                },
            );
        }
        Ok(())
    }
}

} // verus!
