//! The `podlet podman artifact pull` command and what it becomes.

use vstd::prelude::*;

use crate::artifact::Artifact as QuadletArtifact;
use crate::image::{DecryptionKey, image_name, image_to_name};

verus! {

/// Options of `podman artifact pull`.
#[derive(Debug, Clone, PartialEq, Eq)]
pub struct Pull {
    /// Path of the authentication file.
    pub authfile: Option<String>,
    /// Use certificates at path (*.crt, *.cert, *.key) to connect to the registry.
    pub cert_dir: Option<String>,
    /// The username and/or password to use to authenticate with the registry.
    pub creds: Option<String>,
    /// The key and optional passphrase to be used for decryption of artifacts.
    pub decryption_key: Option<DecryptionKey>,
    /// Suppress output information when pulling artifacts.
    pub quiet: bool,
    /// Number of times to retry pulling artifacts.
    pub retry: Option<u64>,
    /// Duration of delay between retry attempts.
    pub retry_delay: Option<String>,
    /// Require HTTPS and verify certificates when contacting registries.
    pub tls_verify: Option<bool>,
    /// The location from which the artifact is obtained.
    pub source: String,
}

impl Default for Pull {
    /// No option set and an empty source.
    fn default() -> (p: Pull)
        ensures
            p.authfile is None && p.cert_dir is None && p.creds is None,
            p.decryption_key is None && !p.quiet && p.retry is None && p.retry_delay is None,
            p.tls_verify is None && p.source@.len() == 0,
    {
        Pull {
            authfile: None,
            cert_dir: None,
            creds: None,
            decryption_key: None,
            quiet: false,
            retry: None,
            retry_delay: None,
            tls_verify: None,
            source: String::new(),
        }
    }
}

/// Subcommands of `podlet podman artifact`.
#[derive(Debug, Clone, PartialEq, Eq)]
pub enum Artifact {
    /// Generate a Quadlet `.artifact` file.
    Pull { pull: Pull },
}

impl Pull {
    /// The `[Artifact]` section that these options become.
    pub open spec fn to_quadlet_spec(self) -> QuadletArtifact {
        QuadletArtifact {
            artifact: self.source,
            auth_file: self.authfile,
            cert_dir: self.cert_dir,
            creds: self.creds,
            decryption_key: self.decryption_key,
            podman_args: None,
            quiet: self.quiet,
            retry: self.retry,
            retry_delay: self.retry_delay,
            tls_verify: self.tls_verify,
        }
    }

    /// The `[Artifact]` section that these options become.
    pub fn into_quadlet(self) -> (r: QuadletArtifact)
        ensures
            r == self.to_quadlet_spec(),
    {
        QuadletArtifact {
            artifact: self.source,
            auth_file: self.authfile,
            cert_dir: self.cert_dir,
            creds: self.creds,
            decryption_key: self.decryption_key,
            podman_args: None,
            quiet: self.quiet,
            retry: self.retry,
            retry_delay: self.retry_delay,
            tls_verify: self.tls_verify,
        }
    }
}

impl Artifact {
    /// Name suitable for use as the file name of the generated Quadlet file: the name of the
    /// pulled artifact.
    pub fn name(&self) -> (r: String)
        ensures
            r@ == image_name(self->pull.source@),
    {
        let Artifact::Pull { pull } = self;
        image_to_name(pull.source.as_str())
    }
}

} // verus!
