//! The `podlet podman image pull` command and what it becomes.

use vstd::prelude::*;

use crate::image::{DecryptionKey, Platform, image_name, image_to_name};
use crate::quadlet_image::Image as QuadletImage;

verus! {

/// Options of `podman image pull`.
#[derive(Debug, Clone, PartialEq, Eq)]
pub struct Pull {
    /// All tagged images in the repository are pulled.
    pub all_tags: bool,
    /// Override the architecture of the image to be pulled.
    pub arch: Option<String>,
    /// Path of the authentication file.
    pub authfile: Option<String>,
    /// Use certificates at path (*.crt, *.cert, *.key) to connect to the registry.
    pub cert_dir: Option<String>,
    /// The username and/or password to use to authenticate with the registry.
    pub creds: Option<String>,
    /// The key and optional passphrase to be used for decryption of images.
    pub decryption_key: Option<DecryptionKey>,
    /// Accepted for compatibility and ignored.
    pub disable_content_trust: bool,
    /// Override the OS of the image to be pulled.
    pub os: Option<String>,
    /// The platform for selecting the image; sets both OS and architecture.
    pub platform: Option<Platform>,
    /// Require HTTPS and verify certificates when contacting registries.
    pub tls_verify: Option<bool>,
    /// Use the given variant instead of the running architecture variant.
    pub variant: Option<String>,
    /// Location from which the container image is pulled.
    pub source: String,
}

impl Default for Pull {
    /// No option set and an empty source.
    fn default() -> (p: Pull)
        ensures
            !p.all_tags && p.arch is None && p.authfile is None && p.cert_dir is None,
            p.creds is None && p.decryption_key is None && !p.disable_content_trust,
            p.os is None && p.platform is None && p.tls_verify is None && p.variant is None,
            p.source@.len() == 0,
    {
        Pull {
            all_tags: false,
            arch: None,
            authfile: None,
            cert_dir: None,
            creds: None,
            decryption_key: None,
            disable_content_trust: false,
            os: None,
            platform: None,
            tls_verify: None,
            variant: None,
            source: String::new(),
        }
    }
}

/// Subcommands of `podlet podman image`.
#[derive(Debug, Clone, PartialEq, Eq)]
pub enum Image {
    /// Generate a Quadlet `.image` file.
    Pull { pull: Pull },
}

impl Image {
    /// Name suitable for use as the file name of the generated Quadlet file: the name of the
    /// pulled image.
    pub fn name(&self) -> (r: String)
        ensures
            r@ == image_name(self->pull.source@),
    {
        let Image::Pull { pull } = self;
        image_to_name(pull.source.as_str())
    }

    /// The `[Image]` section that this command becomes.
    pub fn into_quadlet(self) -> (r: QuadletImage)
        ensures
            r == self->pull.to_quadlet_spec(),
    {
        let Image::Pull { pull } = self;
        pull.into_quadlet()
    }
}

impl Pull {
    /// The `[Image]` section that these options become: a platform, if given, sets the OS and
    /// the architecture.
    pub open spec fn to_quadlet_spec(self) -> QuadletImage {
        QuadletImage {
            all_tags: self.all_tags,
            arch: match self.platform {
                Some(p) => Some(p.arch),
                None => self.arch,
            },
            auth_file: self.authfile,
            cert_dir: self.cert_dir,
            creds: self.creds,
            decryption_key: self.decryption_key,
            image: self.source,
            image_tag: None,
            os: match self.platform {
                Some(p) => Some(p.os),
                None => self.os,
            },
            podman_args: None,
            policy: None,
            retry: None,
            retry_delay: None,
            tls_verify: self.tls_verify,
            variant: self.variant,
        }
    }

    /// The `[Image]` section that these options become.
    pub fn into_quadlet(self) -> (r: QuadletImage)
        ensures
            r == self.to_quadlet_spec(),
    {
        let (os, arch) = match self.platform {
            Some(p) => (Some(p.os), Some(p.arch)),
            None => (self.os, self.arch),
        };
        QuadletImage {
            all_tags: self.all_tags,
            arch,
            auth_file: self.authfile,
            cert_dir: self.cert_dir,
            creds: self.creds,
            decryption_key: self.decryption_key,
            image: self.source,
            image_tag: None,
            os,
            podman_args: None,
            policy: None,
            retry: None,
            retry_delay: None,
            tls_verify: self.tls_verify,
            variant: self.variant,
        }
    }
}

} // verus!
