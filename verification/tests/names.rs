use podlet::artifact::Artifact as QuadletArtifact;
use podlet::cli_artifact::{Artifact, Pull as ArtifactPull};
use podlet::cli_image::{Image, Pull};
use podlet::image::{DecryptionKey, ParsePlatformError, Platform, container_file_name, image_to_name};

#[test]
fn container_name() {
    let name = "test";
    assert_eq!(container_file_name(&Some(String::from(name)), ""), name);
}

#[test]
fn image_no_tag() {
    assert_eq!(container_file_name(&None, "quay.io/podman/hello"), "hello");
}

#[test]
fn image_with_tag() {
    assert_eq!(container_file_name(&None, "quay.io/podman/hello:latest"), "hello");
}

#[test]
fn image_names() {
    assert_eq!(image_to_name("nginx"), "nginx");
    assert_eq!(image_to_name("localhost:5000/app:1"), "app");
    assert_eq!(image_to_name("a/"), "");
}

fn pull(source: &str) -> Pull {
    Pull {
        all_tags: false,
        arch: Some(String::from("arm64")),
        authfile: None,
        cert_dir: None,
        creds: None,
        decryption_key: None,
        disable_content_trust: true,
        os: None,
        platform: None,
        tls_verify: Some(false),
        variant: None,
        source: String::from(source),
    }
}

#[test]
fn image_pull_into_quadlet() {
    let image = Image::Pull { pull: pull("quay.io/podman/hello:latest") };
    assert_eq!(image.name(), "hello");
    let q = image.into_quadlet();
    assert_eq!(q.image, "quay.io/podman/hello:latest");
    assert_eq!(q.arch.as_deref(), Some("arm64"));
    assert_eq!(q.tls_verify, Some(false));

    let mut p = pull("x");
    p.platform = Some(Platform::parse("linux/amd64").unwrap());
    let q = p.into_quadlet();
    assert_eq!(q.os.as_deref(), Some("linux"));
    assert_eq!(q.arch.as_deref(), Some("amd64"));
    assert_eq!(Platform::parse("linux"), Err(ParsePlatformError::MissingArch));
}

#[test]
fn artifact_pull_into_quadlet() {
    let p = ArtifactPull {
        authfile: None,
        cert_dir: Some(String::from("/certs")),
        creds: None,
        decryption_key: Some(DecryptionKey::parse("/key:secret")),
        quiet: true,
        retry: Some(3),
        retry_delay: None,
        tls_verify: None,
        source: String::from("quay.io/a/b:1"),
    };
    let artifact = Artifact::Pull { pull: p.clone() };
    assert_eq!(artifact.name(), "b");
    let q: QuadletArtifact = p.into_quadlet();
    assert_eq!(q.artifact, "quay.io/a/b:1");
    assert!(q.quiet);
    assert_eq!(q.retry, Some(3));
    assert_eq!(q.decryption_key.unwrap().to_string(), "/key:secret");
}

#[test]
fn decryption_key() {
    let key = DecryptionKey::parse("/key");
    assert_eq!(key, DecryptionKey { key: String::from("/key"), passphrase: None });
    assert_eq!(key.to_string(), "/key");
    let key = DecryptionKey::parse("/key:a:b");
    assert_eq!(key.passphrase.as_deref(), Some("a:b"));
    assert_eq!(key.to_string(), "/key:a:b");
}
