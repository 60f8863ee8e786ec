//! Image names and the options of image pulls: the platform and the decryption key.

use vstd::prelude::*;

use crate::text::opt_seq;

use crate::text::{has_char, lemma_split_once_concat, lemma_split_once_none, push_char, push_str, rsplit_once, split_once, str_rsplit_once, str_split_once};

verus! {

/// The last '/'-separated component of an image reference.
pub open spec fn last_component(image: Seq<char>) -> Seq<char> {
    match rsplit_once(image, '/') {
        Some((_, name)) => name,
        None => image,
    }
}

/// The name of an image: its last component without the tag after ':'.
pub open spec fn image_name(image: Seq<char>) -> Seq<char> {
    let c = last_component(image);
    match split_once(c, ':') {
        Some((name, _)) => name,
        None => c,
    }
}

/// Takes an image and returns an appropriate default service name: the last component of the
/// image reference without its tag.
pub fn image_to_name(image: &str) -> (r: String)
    ensures
        r@ == image_name(image@),
{
    let last = match str_rsplit_once(image, '/') {
        Some((_, name)) => name,
        None => image.to_owned(),
    };
    match str_split_once(last.as_str(), ':') {
        Some((name, _)) => name,
        None => last,
    }
}

/// The name of the file generated for a container: its name if set, else the name of its
/// image.
pub fn container_file_name(name: &Option<String>, image: &str) -> (r: String)
    ensures
        r@ == match name {
            Some(n) => n@,
            None => image_name(image@),
        },
{
    match name {
        Some(n) => n.clone(),
        None => image_to_name(image),
    }
}

/// The `--platform` option of an image pull: "OS/ARCH".
#[derive(Debug, Clone, PartialEq, Eq)]
pub struct Platform {
    pub os: String,
    pub arch: String,
}

/// Error returned when parsing a [`Platform`].
#[derive(Debug, Clone, Copy, PartialEq, Eq, Structural)]
pub enum ParsePlatformError {
    /// The platform has no '/' before the architecture.
    MissingArch,
}

impl Platform {
    /// Parse a platform "OS/ARCH", split at the first '/'.
    pub fn parse(s: &str) -> (r: Result<Platform, ParsePlatformError>)
        ensures
            match r {
                Ok(p) => split_once(s@, '/') == Some((p.os@, p.arch@)),
                Err(e) => split_once(s@, '/') is None && e == ParsePlatformError::MissingArch,
            },
    {
        match str_split_once(s, '/') {
            Some((os, arch)) => Ok(Platform { os, arch }),
            None => Err(ParsePlatformError::MissingArch),
        }
    }
}

/// The key and optional passphrase for the decryption of images: "key\[:passphrase\]".
#[derive(Debug, Clone, PartialEq, Eq)]
pub struct DecryptionKey {
    pub key: String,
    pub passphrase: Option<String>,
}

/// What parsing a decryption key gives: split at the first ':'.
pub open spec fn parse_decryption_key(s: Seq<char>) -> (Seq<char>, Option<Seq<char>>) {
    match split_once(s, ':') {
        Some((key, passphrase)) => (key, Some(passphrase)),
        None => (s, None),
    }
}

/// The text of a decryption key.
pub open spec fn decryption_key_text(key: Seq<char>, passphrase: Option<Seq<char>>) -> Seq<char> {
    match passphrase {
        Some(p) => key + seq![':'] + p,
        None => key,
    }
}

impl DecryptionKey {
    /// Parse a decryption key "key\[:passphrase\]".
    pub fn parse(s: &str) -> (r: DecryptionKey)
        ensures
            (r.key@, opt_seq(r.passphrase)) == parse_decryption_key(s@),
    {
        match str_split_once(s, ':') {
            Some((key, passphrase)) => DecryptionKey { key, passphrase: Some(passphrase) },
            None => DecryptionKey { key: s.to_owned(), passphrase: None },
        }
    }

    /// The text of this decryption key: "key\[:passphrase\]".
    pub fn to_string(&self) -> (r: String)
        ensures
            r@ == decryption_key_text(self.key@, opt_seq(self.passphrase)),
    {
        let mut s = String::new();
        push_str(&mut s, self.key.as_str());
        match &self.passphrase {
            Some(p) => {
                push_char(&mut s, ':');
                push_str(&mut s, p.as_str());
            },
            None => {},
        }
        assert(s@ =~= decryption_key_text(self.key@, opt_seq(self.passphrase)));
        s
    }
}

/// A decryption key whose key has no ':' parses back from its text.
pub proof fn decryption_key_round_trip(key: Seq<char>, passphrase: Option<Seq<char>>)
    requires
        !has_char(key, ':'),
    ensures
        parse_decryption_key(decryption_key_text(key, passphrase)) == (key, passphrase),
{
    match passphrase {
        Some(p) => {
            lemma_split_once_concat(key, p, ':');
        },
        None => {
            lemma_split_once_none(key, ':');
        },
    }
}

} // verus!
