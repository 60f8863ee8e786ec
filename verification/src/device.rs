//! [`Device`] for the `AddDevice=` Quadlet option of a container.
//!
//! The text format is "host-device\[:container-device\]\[:permissions\]".

use vstd::prelude::*;

use crate::text::{chars, has_char, lemma_split_once_concat, lemma_split_once_none, push_char, push_str, split_once, str_split_once, string_of};

verus! {

/// Device to attach to a container.
#[derive(Debug, Clone, PartialEq, Eq)]
pub struct Device {
    /// Host path.
    pub host: String,
    /// Container path.
    pub container: Option<String>,
    /// Read permission.
    pub read: bool,
    /// Write permission.
    pub write: bool,
    /// **mknod(2)** permission.
    pub mknod: bool,
}

/// [`Device`] with its paths as character sequences.
pub ghost struct DeviceView {
    pub host: Seq<char>,
    pub container: Option<Seq<char>>,
    pub read: bool,
    pub write: bool,
    pub mknod: bool,
}

impl View for Device {
    type V = DeviceView;

    open spec fn view(&self) -> DeviceView {
        DeviceView {
            host: self.host@,
            container: match self.container {
                Some(c) => Some(c@),
                None => None,
            },
            read: self.read,
            write: self.write,
            mknod: self.mknod,
        }
    }
}

/// Error returned when parsing [`Device`].
#[derive(Debug, Clone, Copy, PartialEq, Eq, Structural)]
pub enum ParseDeviceError {
    /// Host device path was empty
    EmptyHostPath,
    /// An unknown permission was given.
    UnknownPermission(char),
}

/// The three parts of "a\[:b\[:c\]\]", as `str::splitn(3, ':')` gives them, missing parts empty.
pub open spec fn device_parts(s: Seq<char>) -> (Seq<char>, Seq<char>, Seq<char>) {
    match split_once(s, ':') {
        None => (s, Seq::<char>::empty(), Seq::<char>::empty()),
        Some((h, r)) => match split_once(r, ':') {
            None => (h, r, Seq::<char>::empty()),
            Some((a, b)) => (h, a, b),
        },
    }
}

/// The flags that the permission letters `p` set, or the first character that is not one of
/// 'r', 'w', 'm'.
pub open spec fn parse_permissions(p: Seq<char>) -> Result<(bool, bool, bool), char>
    decreases p.len(),
{
    if p.len() == 0 {
        Ok((false, false, false))
    } else {
        match parse_permissions(p.drop_last()) {
            Err(c) => Err(c),
            Ok((r, w, m)) => {
                let c = p.last();
                if c == 'r' {
                    Ok((true, w, m))
                } else if c == 'w' {
                    Ok((r, true, m))
                } else if c == 'm' {
                    Ok((r, w, true))
                } else {
                    Err(c)
                }
            },
        }
    }
}

/// What parsing "host-device\[:container-device\]\[:permissions\]" gives.
///
/// The second part is the container path when it starts with '/'; otherwise the second and third
/// parts together are the permissions.
pub open spec fn parse_device(s: Seq<char>) -> Result<DeviceView, ParseDeviceError> {
    let (host, second, third) = device_parts(s);
    if host.len() == 0 {
        Err(ParseDeviceError::EmptyHostPath)
    } else {
        let (container, permissions) = if second.len() > 0 && second[0] == '/' {
            (Some(second), third)
        } else {
            (None, second + third)
        };
        match parse_permissions(permissions) {
            Err(c) => Err(ParseDeviceError::UnknownPermission(c)),
            Ok((read, write, mknod)) => Ok(
                DeviceView { host, container, read, write, mknod },
            ),
        }
    }
}

/// The permission letters of a device: "r", "w", "m" in that order, as set.
pub open spec fn permissions_text(read: bool, write: bool, mknod: bool) -> Seq<char> {
    (if read {
        seq!['r']
    } else {
        Seq::<char>::empty()
    }) + (if write {
        seq!['w']
    } else {
        Seq::<char>::empty()
    }) + (if mknod {
        seq!['m']
    } else {
        Seq::<char>::empty()
    })
}

/// The text of a device: "host\[:container\]\[:permissions\]".
pub open spec fn device_text(d: DeviceView) -> Seq<char> {
    d.host + (match d.container {
        Some(c) => seq![':'] + c,
        None => Seq::<char>::empty(),
    }) + (if d.read || d.write || d.mknod {
        seq![':'] + permissions_text(d.read, d.write, d.mknod)
    } else {
        Seq::<char>::empty()
    })
}

/// Parse the permission letters `v[lo..hi]`.
fn parse_permission_chars(v: &Vec<char>) -> (r: Result<(bool, bool, bool), char>)
    ensures
        r == parse_permissions(v@),
{
    let mut read = false;
    let mut write = false;
    let mut mknod = false;
    let mut i: usize = 0;
    while i < v.len()
        invariant
            i <= v@.len(),
            parse_permissions(v@.subrange(0, i as int)) == Ok::<(bool, bool, bool), char>(
                (read, write, mknod),
            ),
        decreases v@.len() - i,
    {
        let ghost pre = v@.subrange(0, i + 1);
        assert(pre.drop_last() =~= v@.subrange(0, i as int));
        let c = v[i];
        if c == 'r' {
            read = true;
        } else if c == 'w' {
            write = true;
        } else if c == 'm' {
            mknod = true;
        } else {
            proof {
                lemma_permissions_err(v@, i as int, c);
            }
            return Err(c);
        }
        i = i + 1;
    }
    assert(v@.subrange(0, v@.len() as int) =~= v@);
    Ok((read, write, mknod))
}

proof fn lemma_permissions_err(p: Seq<char>, i: int, c: char)
    requires
        0 <= i < p.len(),
        parse_permissions(p.subrange(0, i + 1)) == Err::<(bool, bool, bool), char>(c),
    ensures
        parse_permissions(p) == Err::<(bool, bool, bool), char>(c),
    decreases p.len() - i,
{
    if i + 1 < p.len() {
        assert(p.subrange(0, i + 2).drop_last() =~= p.subrange(0, i + 1));
        lemma_permissions_err(p, i + 1, c);
    } else {
        assert(p.subrange(0, i + 1) =~= p);
    }
}

impl Device {
    /// Parse a [`Device`] from "host-device\[:container-device\]\[:permissions\]".
    pub fn parse(s: &str) -> (r: Result<Device, ParseDeviceError>)
        ensures
            match r {
                Ok(d) => parse_device(s@) == Ok::<DeviceView, ParseDeviceError>(d@),
                Err(e) => parse_device(s@) == Err::<DeviceView, ParseDeviceError>(e),
            },
    {
        let (host, second, third) = match str_split_once(s, ':') {
            None => (s.to_owned(), String::new(), String::new()),
            Some((h, r)) => match str_split_once(r.as_str(), ':') {
                None => (h, r, String::new()),
                Some((a, b)) => (h, a, b),
            },
        };
        assert((host@, second@, third@) == device_parts(s@));
        let host_chars = chars(host.as_str());
        if host_chars.len() == 0 {
            return Err(ParseDeviceError::EmptyHostPath);
        }
        let second_chars = chars(second.as_str());
        let (container, permissions) = if second_chars.len() > 0 && second_chars[0] == '/' {
            (Some(second), third)
        } else {
            let mut p = second;
            push_str(&mut p, third.as_str());
            (None, p)
        };
        let pv = chars(permissions.as_str());
        match parse_permission_chars(&pv) {
            Err(c) => Err(ParseDeviceError::UnknownPermission(c)),
            Ok((read, write, mknod)) => Ok(Device { host, container, read, write, mknod }),
        }
    }

    /// The text of this device: "host\[:container\]\[:permissions\]".
    pub fn to_string(&self) -> (s: String)
        ensures
            s@ == device_text(self@),
    {
        let mut s = String::new();
        push_str(&mut s, self.host.as_str());
        match &self.container {
            Some(c) => {
                push_char(&mut s, ':');
                push_str(&mut s, c.as_str());
            },
            None => {},
        }
        if self.read || self.write || self.mknod {
            push_char(&mut s, ':');
        }
        if self.read {
            push_char(&mut s, 'r');
        }
        if self.write {
            push_char(&mut s, 'w');
        }
        if self.mknod {
            push_char(&mut s, 'm');
        }
        assert(s@ =~= device_text(self@));
        s
    }
}

impl core::str::FromStr for Device {
    type Err = ParseDeviceError;

    fn from_str(s: &str) -> (r: Result<Device, ParseDeviceError>)
        ensures
            match r {
                Ok(d) => parse_device(s@) == Ok::<DeviceView, ParseDeviceError>(d@),
                Err(e) => parse_device(s@) == Err::<DeviceView, ParseDeviceError>(e),
            },
    {
        Device::parse(s)
    }
}

/// Parsing a device's permission letters gives its flags back.
proof fn lemma_parse_permissions_text(read: bool, write: bool, mknod: bool)
    ensures
        parse_permissions(permissions_text(read, write, mknod)) == Ok::<(bool, bool, bool), char>(
            (read, write, mknod),
        ),
{
    let a = if read {
        seq!['r']
    } else {
        Seq::<char>::empty()
    };
    let b = if write {
        seq!['w']
    } else {
        Seq::<char>::empty()
    };
    let c = if mknod {
        seq!['m']
    } else {
        Seq::<char>::empty()
    };
    let t = permissions_text(read, write, mknod);
    assert(parse_permissions(Seq::<char>::empty()) == Ok::<(bool, bool, bool), char>(
        (false, false, false),
    ));
    assert(parse_permissions(a) == Ok::<(bool, bool, bool), char>((read, false, false))) by {
        if read {
            assert(a.drop_last() =~= Seq::<char>::empty());
        }
    }
    assert(parse_permissions(a + b) == Ok::<(bool, bool, bool), char>((read, write, false))) by {
        if write {
            assert((a + b).drop_last() =~= a);
        } else {
            assert(a + b =~= a);
        }
    }
    assert(parse_permissions(a + b + c) == Ok::<(bool, bool, bool), char>((read, write, mknod)))
        by {
        if mknod {
            assert((a + b + c).drop_last() =~= a + b);
        } else {
            assert(a + b + c =~= a + b);
        }
    }
}

/// A device whose host path is not empty, whose paths hold no ':', and whose container path
/// starts with '/' is given back by parsing its text.
pub proof fn device_round_trip(d: DeviceView)
    requires
        d.host.len() > 0,
        !has_char(d.host, ':'),
        d.container matches Some(c) ==> c.len() > 0 && c[0] == '/' && !has_char(c, ':'),
    ensures
        parse_device(device_text(d)) == Ok::<DeviceView, ParseDeviceError>(d),
{
    let p = permissions_text(d.read, d.write, d.mknod);
    let any = d.read || d.write || d.mknod;
    lemma_parse_permissions_text(d.read, d.write, d.mknod);
    assert(!has_char(p, ':')) by {
        if has_char(p, ':') {
            let i = choose|i: int| 0 <= i < p.len() && p[i] == ':';
            assert(p[i] == 'r' || p[i] == 'w' || p[i] == 'm');
        }
    }
    let t = device_text(d);
    match d.container {
        Some(c) => {
            if any {
                assert(t =~= d.host + seq![':'] + (c + seq![':'] + p));
                lemma_split_once_concat(d.host, c + seq![':'] + p, ':');
                lemma_split_once_concat(c, p, ':');
            } else {
                assert(t =~= d.host + seq![':'] + c);
                lemma_split_once_concat(d.host, c, ':');
                lemma_split_once_none(c, ':');
                assert(p =~= Seq::<char>::empty());
            }
        },
        None => {
            if any {
                assert(t =~= d.host + seq![':'] + p);
                lemma_split_once_concat(d.host, p, ':');
                lemma_split_once_none(p, ':');
                assert(p + Seq::<char>::empty() =~= p);
                assert(p.len() > 0);
                assert(p[0] == 'r' || p[0] == 'w' || p[0] == 'm');
            } else {
                assert(t =~= d.host);
                lemma_split_once_none(d.host, ':');
                assert(p =~= Seq::<char>::empty());
                assert(Seq::<char>::empty() + Seq::<char>::empty() =~= p);
            }
        },
    }
}

} // verus!
