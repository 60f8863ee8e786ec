//! Options of the `[Image]` section of a Quadlet `.image` file.

use vstd::prelude::*;

use crate::text::opt_seq;

use crate::container::{pull_policy_name, PullPolicy};
use crate::downgrade::{older, push_podman_arg, with_podman_arg, DowngradeErr, DowngradeError, PodmanVersion};
use crate::num::{decimal, decimal_string};
use crate::image::DecryptionKey;

verus! {

/// Options for the `[Image]` section of a `.image` Quadlet file.
#[derive(Debug, Clone, PartialEq, Eq)]
pub struct Image {
    /// All tagged images in the repository are pulled.
    pub all_tags: bool,
    /// Override the architecture of the image to be pulled.
    pub arch: Option<String>,
    /// Path of the authentication file.
    pub auth_file: Option<String>,
    /// Use certificates at path (*.crt, *.cert, *.key) to connect to the registry.
    pub cert_dir: Option<String>,
    /// The username and/or password to use to authenticate with the registry.
    pub creds: Option<String>,
    /// The key and optional passphrase to be used for decryption of images.
    pub decryption_key: Option<DecryptionKey>,
    /// The image to pull.
    pub image: String,
    /// Actual FQIN of the referenced image, for a file or directory archive source.
    pub image_tag: Option<String>,
    /// Override the OS of the image to be pulled.
    pub os: Option<String>,
    /// Arguments passed directly to the end of the `podman image pull` command.
    pub podman_args: Option<String>,
    /// The pull policy to use when pulling the image.
    pub policy: Option<PullPolicy>,
    /// Number of times to retry the image pull when a HTTP error occurs.
    pub retry: Option<u64>,
    /// Delay between retries.
    pub retry_delay: Option<String>,
    /// Require HTTPS and verification of certificates when contacting registries.
    pub tls_verify: Option<bool>,
    /// Override the default architecture variant of the container image.
    pub variant: Option<String>,
}

impl Image {
    /// An image section that pulls `image` with no other option set.
    pub fn new(image: String) -> (r: Image)
        ensures
            r.image == image,
            !r.all_tags,
            r.arch is None && r.auth_file is None && r.cert_dir is None && r.creds is None,
            r.decryption_key is None && r.image_tag is None && r.os is None,
            r.podman_args is None && r.policy is None && r.retry is None && r.retry_delay is None,
            r.tls_verify is None && r.variant is None,
    {
        Image {
            all_tags: false,
            arch: None,
            auth_file: None,
            cert_dir: None,
            creds: None,
            decryption_key: None,
            image,
            image_tag: None,
            os: None,
            podman_args: None,
            policy: None,
            retry: None,
            retry_delay: None,
            tls_verify: None,
            variant: None,
        }
    }
}

/// An image made to fit Podman `version`: its pull policy, retries, retry delay, Podman
/// arguments, and the error, if any, as the options are taken in turn. Before 5.6 a pull policy
/// is an error. Before 5.5 the retries and the retry delay become `--retry` and `--retry-delay`
/// arguments, and are errors before 5.0. Before 4.8 `.image` files are an error.
pub open spec fn image_downgraded(i: Image, version: PodmanVersion) -> (
    Option<PullPolicy>,
    Option<u64>,
    Option<Seq<char>>,
    Option<Seq<char>>,
    Option<DowngradeErr>,
) {
    let args = opt_seq(i.podman_args);
    let delay = opt_seq(i.retry_delay);
    let v50 = PodmanVersion { major: 5, minor: 0 };
    if older(version, PodmanVersion { major: 5, minor: 6 }) && i.policy is Some {
        (
            None,
            i.retry,
            delay,
            args,
            Some(
                DowngradeErr::Option {
                    quadlet_option: "Policy"@,
                    value: pull_policy_name(i.policy->Some_0),
                    supported_version: PodmanVersion { major: 5, minor: 6 },
                },
            ),
        )
    } else if older(version, PodmanVersion { major: 5, minor: 5 }) && i.retry is Some && older(
        version,
        v50,
    ) {
        (
            None,
            None,
            delay,
            args,
            Some(
                DowngradeErr::Option {
                    quadlet_option: "Retry"@,
                    value: decimal(i.retry->Some_0 as nat),
                    supported_version: v50,
                },
            ),
        )
    } else {
        let (retry, delay, args) = if older(version, PodmanVersion { major: 5, minor: 5 }) {
            let a = match i.retry {
                Some(n) => Some(with_podman_arg(args, "retry"@, decimal(n as nat))),
                None => args,
            };
            (None, None, a)
        } else {
            (i.retry, delay, args)
        };
        if older(version, PodmanVersion { major: 5, minor: 5 }) && i.retry_delay is Some && older(
            version,
            v50,
        ) {
            (
                None,
                None,
                None,
                args,
                Some(
                    DowngradeErr::Option {
                        quadlet_option: "RetryDelay"@,
                        value: opt_seq(i.retry_delay)->Some_0,
                        supported_version: v50,
                    },
                ),
            )
        } else {
            let args = if older(version, PodmanVersion { major: 5, minor: 5 }) {
                match i.retry_delay {
                    Some(d) => Some(with_podman_arg(args, "retry-delay"@, d@)),
                    None => args,
                }
            } else {
                args
            };
            let policy = if older(version, PodmanVersion { major: 5, minor: 6 }) {
                None
            } else {
                i.policy
            };
            if older(version, PodmanVersion { major: 4, minor: 8 }) {
                (
                    policy,
                    retry,
                    delay,
                    args,
                    Some(
                        DowngradeErr::Kind {
                            kind: "image"@,
                            supported_version: PodmanVersion { major: 4, minor: 8 },
                        },
                    ),
                )
            } else {
                (policy, retry, delay, args, None)
            }
        }
    }
}

impl Image {
    /// Makes the image fit Podman `version`; see [`image_downgraded`]. The other options stay as
    /// they are.
    pub fn downgrade(&mut self, version: PodmanVersion) -> (r: Result<(), DowngradeError>)
        ensures
            !older(version, PodmanVersion { major: 5, minor: 6 }) ==> r is Ok && *final(self)
                == *old(self),
            ({
                let (policy, retry, delay, args, err) = image_downgraded(*old(self), version);
                &&& final(self).policy == policy && final(self).retry == retry
                &&& opt_seq(final(self).retry_delay) == delay
                &&& opt_seq(final(self).podman_args) == args
                &&& match r {
                    Ok(()) => err is None,
                    Err(e) => err == Some(e@),
                }
            }),
            final(self).all_tags == old(self).all_tags && final(self).arch == old(self).arch,
            final(self).auth_file == old(self).auth_file && final(self).cert_dir == old(self).cert_dir,
            final(self).creds == old(self).creds,
            final(self).decryption_key == old(self).decryption_key,
            final(self).image == old(self).image && final(self).image_tag == old(self).image_tag,
            final(self).os == old(self).os && final(self).tls_verify == old(self).tls_verify,
            final(self).variant == old(self).variant,
    {
        if version.is_older_than(PodmanVersion::new(5, 6)) {
            if let Some(policy) = self.policy.take() {
                return Err(
                    DowngradeError::Option {
                        quadlet_option: "Policy".to_owned(),
                        value: policy.as_str().to_owned(),
                        supported_version: PodmanVersion::new(5, 6),
                    },
                );
            }
        }
        if version.is_older_than(PodmanVersion::new(5, 5)) {
            if let Some(retry) = self.retry.take() {
                if version.is_older_than(PodmanVersion::new(5, 0)) {
                    return Err(
                        DowngradeError::Option {
                            quadlet_option: "Retry".to_owned(),
                            value: decimal_string(retry as u128),
                            supported_version: PodmanVersion::new(5, 0),
                        },
                    );
                }
                let n = decimal_string(retry as u128);
                push_podman_arg(&mut self.podman_args, "retry", n.as_str());
            }
            if let Some(delay) = self.retry_delay.take() {
                if version.is_older_than(PodmanVersion::new(5, 0)) {
                    return Err(
                        DowngradeError::Option {
                            quadlet_option: "RetryDelay".to_owned(),
                            value: delay,
                            supported_version: PodmanVersion::new(5, 0),
                        },
                    );
                }
                push_podman_arg(&mut self.podman_args, "retry-delay", delay.as_str());
            }
        }
        if version.is_older_than(PodmanVersion::new(4, 8)) {
            return Err(
                DowngradeError::Kind {
                    kind: "image".to_owned(),
                    supported_version: PodmanVersion::new(4, 8),
                },
            );
        }
        Ok(())
    }
}

} // verus!
