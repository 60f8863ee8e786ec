//! [`Volume`] for the `Volume=` Quadlet option of a container: "\[source:\]container_path\[:options\]".

use vstd::prelude::*;

use crate::text::opt_seq;

use crate::idmap::{Idmap, IdmapErr, Mapping, ParseIdmapError, idmap_text, parse_idmap};
use crate::mount_opts::{BindPropagation, SELinuxRelabel, propagation_name, propagation_of, relabel_char};
use crate::text::{join, join_with, push_char, push_if, push_str, push_string, split_once, split_terminator, str_eq, str_split, str_split_once, str_starts_with, str_strip_prefix, strip_prefix};

verus! {

/// Overlay mount options for volume [`Options`].
#[derive(Debug, Clone, PartialEq, Eq)]
pub struct Overlay {
    /// The directory merged on top of all the lower directories, where changes are written.
    pub upper_dir: Option<String>,
    /// A directory used internally by fuse-overlayfs.
    pub work_dir: Option<String>,
}

/// Options for how to mount a volume's source into the container.
#[derive(Debug, Clone, PartialEq, Eq)]
pub struct Options {
    /// Mount volume in read only mode.
    pub read_only: bool,
    /// Relabel objects within the volume.
    pub selinux_relabel: Option<SELinuxRelabel>,
    /// Mount volume using the overlay file system.
    pub overlay: Option<Overlay>,
    /// Recursively change the owner of each file in the volume to match the container.
    pub chown: bool,
    /// Do not copy contents from destination directory onto newly created volumes.
    pub no_copy: bool,
    /// Whether devices in the volume can be used in the container.
    pub devices: bool,
    /// Do not allow executables in the volume to be executed within the container.
    pub no_executables: bool,
    /// Allow SUID executables in the volume to be used within the container.
    pub suid: bool,
    /// Recursively mount a volume and all of its submounts into the container.
    pub recursive_bind: bool,
    /// How mounts in the volume are propagated between the container and the host.
    pub bind_propagation: BindPropagation,
    /// Create an idmapped mount to the target user namespace in the container.
    pub idmap: Option<Idmap>,
}

/// [`Options`] with its paths as character sequences.
pub ghost struct OptionsView {
    pub read_only: bool,
    pub selinux_relabel: Option<SELinuxRelabel>,
    pub overlay: Option<(Option<Seq<char>>, Option<Seq<char>>)>,
    pub chown: bool,
    pub no_copy: bool,
    pub devices: bool,
    pub no_executables: bool,
    pub suid: bool,
    pub recursive_bind: bool,
    pub bind_propagation: BindPropagation,
    pub idmap: Option<(Seq<Mapping>, Seq<Mapping>)>,
}

impl View for Options {
    type V = OptionsView;

    open spec fn view(&self) -> OptionsView {
        OptionsView {
            read_only: self.read_only,
            selinux_relabel: self.selinux_relabel,
            overlay: match self.overlay {
                Some(o) => Some((opt_seq(o.upper_dir), opt_seq(o.work_dir))),
                None => None,
            },
            chown: self.chown,
            no_copy: self.no_copy,
            devices: self.devices,
            no_executables: self.no_executables,
            suid: self.suid,
            recursive_bind: self.recursive_bind,
            bind_propagation: self.bind_propagation,
            idmap: match self.idmap {
                Some(m) => Some(m@),
                None => None,
            },
        }
    }
}

/// The default options: nothing set, `rprivate` propagation.
pub open spec fn default_options() -> OptionsView {
    OptionsView {
        read_only: false,
        selinux_relabel: None,
        overlay: None,
        chown: false,
        no_copy: false,
        devices: false,
        no_executables: false,
        suid: false,
        recursive_bind: false,
        bind_propagation: BindPropagation::RPrivate,
        idmap: None,
    }
}

/// Error returned when parsing [`Options`].
#[derive(Debug, Clone, PartialEq, Eq)]
pub enum ParseOptionsError {
    /// Multiples of an option given.
    Multiple(&'static str),
    /// Option that requires a value was not given one.
    RequiresValue(&'static str),
    /// Overlay not set before `upperdir` or `workdir`.
    OverlayMissing,
    /// Error parsing [`Idmap`].
    Idmap(ParseIdmapError),
    /// Unknown volume option given.
    Unknown(String),
}

/// [`ParseOptionsError`] with its text as a character sequence.
pub ghost enum OptionsErr {
    Multiple(Seq<char>),
    RequiresValue(Seq<char>),
    OverlayMissing,
    Idmap(IdmapErr),
    Unknown(Seq<char>),
}

impl View for ParseOptionsError {
    type V = OptionsErr;

    open spec fn view(&self) -> OptionsErr {
        match self {
            ParseOptionsError::Multiple(n) => OptionsErr::Multiple(n@),
            ParseOptionsError::RequiresValue(n) => OptionsErr::RequiresValue(n@),
            ParseOptionsError::OverlayMissing => OptionsErr::OverlayMissing,
            ParseOptionsError::Idmap(e) => OptionsErr::Idmap(e@),
            ParseOptionsError::Unknown(o) => OptionsErr::Unknown(o@),
        }
    }
}

/// An option's name and its value, `None` when absent or empty.
pub open spec fn option_name_value(option: Seq<char>) -> (Seq<char>, Option<Seq<char>>) {
    match split_once(option, '=') {
        None => (option, None),
        Some((k, v)) => (
            k,
            if v.len() > 0 {
                Some(v)
            } else {
                None
            },
        ),
    }
}

/// Apply an option that takes no value and only sets a flag; `None` for other names.
pub open spec fn flag_step(o: OptionsView, name: Seq<char>) -> Option<OptionsView> {
    if name == "rw"@ {
        Some(OptionsView { read_only: false, ..o })
    } else if name == "ro"@ {
        Some(OptionsView { read_only: true, ..o })
    } else if name == "z"@ {
        Some(OptionsView { selinux_relabel: Some(SELinuxRelabel::Shared), ..o })
    } else if name == "Z"@ {
        Some(OptionsView { selinux_relabel: Some(SELinuxRelabel::Private), ..o })
    } else if name == "U"@ {
        Some(OptionsView { chown: true, ..o })
    } else if name == "nocopy"@ {
        Some(OptionsView { no_copy: true, ..o })
    } else if name == "copy"@ {
        Some(OptionsView { no_copy: false, ..o })
    } else if name == "nodev"@ {
        Some(OptionsView { devices: false, ..o })
    } else if name == "dev"@ {
        Some(OptionsView { devices: true, ..o })
    } else if name == "noexec"@ {
        Some(OptionsView { no_executables: true, ..o })
    } else if name == "exec"@ {
        Some(OptionsView { no_executables: false, ..o })
    } else if name == "nosuid"@ {
        Some(OptionsView { suid: false, ..o })
    } else if name == "suid"@ {
        Some(OptionsView { suid: true, ..o })
    } else if name == "rbind"@ {
        Some(OptionsView { recursive_bind: true, ..o })
    } else if name == "bind"@ {
        Some(OptionsView { recursive_bind: false, ..o })
    } else {
        None
    }
}

/// Apply an option that is not a flag: overlay, its directories, idmap, or a bind propagation.
pub open spec fn valued_step(o: OptionsView, name: Seq<char>, value: Option<Seq<char>>) -> Result<
    OptionsView,
    OptionsErr,
> {
    if name == "O"@ {
        if o.overlay is Some {
            Err(OptionsErr::Multiple("O"@))
        } else {
            Ok(OptionsView { overlay: Some((None, None)), ..o })
        }
    } else if name == "upperdir"@ {
        match value {
            None => Err(OptionsErr::RequiresValue("upperdir"@)),
            Some(v) => match o.overlay {
                None => Err(OptionsErr::OverlayMissing),
                Some((up, work)) => if up is Some {
                    Err(OptionsErr::Multiple("upperdir"@))
                } else {
                    Ok(OptionsView { overlay: Some((Some(v), work)), ..o })
                },
            },
        }
    } else if name == "workdir"@ {
        match value {
            None => Err(OptionsErr::RequiresValue("workdir"@)),
            Some(v) => match o.overlay {
                None => Err(OptionsErr::OverlayMissing),
                Some((up, work)) => if work is Some {
                    Err(OptionsErr::Multiple("workdir"@))
                } else {
                    Ok(OptionsView { overlay: Some((up, Some(v))), ..o })
                },
            },
        }
    } else if name == "idmap"@ {
        if o.idmap is Some {
            Err(OptionsErr::Multiple("idmap"@))
        } else {
            match value {
                None => Ok(
                    OptionsView {
                        idmap: Some((Seq::<Mapping>::empty(), Seq::<Mapping>::empty())),
                        ..o
                    },
                ),
                Some(v) => match parse_idmap(v) {
                    Err(e) => Err(OptionsErr::Idmap(e)),
                    Ok(m) => Ok(OptionsView { idmap: Some(m), ..o }),
                },
            }
        }
    } else {
        match propagation_of(name) {
            Some(p) => Ok(OptionsView { bind_propagation: p, ..o }),
            None => Err(OptionsErr::Unknown(name)),
        }
    }
}

/// Apply one volume option, "name" or "name=value", to `o`.
pub open spec fn option_step(o: OptionsView, option: Seq<char>) -> Result<OptionsView, OptionsErr> {
    let (name, value) = option_name_value(option);
    match flag_step(o, name) {
        Some(r) => Ok(r),
        None => valued_step(o, name, value),
    }
}

/// Apply the options `opts` in order, starting from the defaults.
pub open spec fn fold_options(opts: Seq<Seq<char>>) -> Result<OptionsView, OptionsErr>
    decreases opts.len(),
{
    if opts.len() == 0 {
        Ok(default_options())
    } else {
        match fold_options(opts.drop_last()) {
            Err(e) => Err(e),
            Ok(o) => option_step(o, opts.last()),
        }
    }
}

/// What parsing ":option\[=value\],..." gives; the leading ':' is optional.
pub open spec fn parse_options(s: Seq<char>) -> Result<OptionsView, OptionsErr> {
    let body = match strip_prefix(s, seq![':']) {
        Some(b) => b,
        None => s,
    };
    fold_options(split_terminator(body, ','))
}

/// The text of an overlay option: "O\[,upperdir=DIR\]\[,workdir=DIR\]".
pub open spec fn overlay_text(up: Option<Seq<char>>, work: Option<Seq<char>>) -> Seq<char> {
    seq!['O'] + (match up {
        Some(u) => ",upperdir="@ + u,
        None => Seq::<char>::empty(),
    }) + (match work {
        Some(w) => ",workdir="@ + w,
        None => Seq::<char>::empty(),
    })
}

/// The texts of the options that differ from the defaults, in a fixed order.
pub open spec fn option_items(o: OptionsView) -> Seq<Seq<char>> {
    let a = push_if(Seq::<Seq<char>>::empty(), o.read_only, "ro"@);
    let b = match o.selinux_relabel {
        Some(r) => a.push(seq![relabel_char(r)]),
        None => a,
    };
    let c = match o.overlay {
        Some((up, work)) => b.push(overlay_text(up, work)),
        None => b,
    };
    let d = push_if(c, o.chown, seq!['U']);
    let e = push_if(d, o.no_copy, "nocopy"@);
    let f = push_if(e, o.devices, "dev"@);
    let g = push_if(f, o.no_executables, "noexec"@);
    let h = push_if(g, o.suid, "suid"@);
    let i = push_if(h, o.recursive_bind, "rbind"@);
    let j = push_if(
        i,
        o.bind_propagation != BindPropagation::RPrivate,
        propagation_name(o.bind_propagation),
    );
    match o.idmap {
        Some(m) => j.push(
            if m.0.len() == 0 && m.1.len() == 0 {
                "idmap"@
            } else {
                "idmap="@ + idmap_text(m.0, m.1)
            },
        ),
        None => j,
    }
}

/// The text of volume options: ":" and the items joined by ",", or nothing without items.
pub open spec fn options_text(o: OptionsView) -> Seq<char> {
    let items = option_items(o);
    if items.len() == 0 {
        Seq::<char>::empty()
    } else {
        seq![':'] + join(items, seq![','])
    }
}

proof fn lemma_fold_options_err(opts: Seq<Seq<char>>, i: int, e: OptionsErr)
    requires
        0 <= i < opts.len(),
        fold_options(opts.subrange(0, i + 1)) == Err::<OptionsView, OptionsErr>(e),
    ensures
        fold_options(opts) == Err::<OptionsView, OptionsErr>(e),
    decreases opts.len() - i,
{
    if i + 1 < opts.len() {
        assert(opts.subrange(0, i + 2).drop_last() =~= opts.subrange(0, i + 1));
        lemma_fold_options_err(opts, i + 1, e);
    } else {
        assert(opts.subrange(0, i + 1) =~= opts);
    }
}

/// The text of an overlay option.
fn overlay_string(ov: &Overlay) -> (s: String)
    ensures
        s@ == overlay_text(opt_seq(ov.upper_dir), opt_seq(ov.work_dir)),
{
    let mut s = String::new();
    push_char(&mut s, 'O');
    match &ov.upper_dir {
        Some(u) => {
            push_str(&mut s, ",upperdir=");
            push_str(&mut s, u.as_str());
        },
        None => {},
    }
    match &ov.work_dir {
        Some(w) => {
            push_str(&mut s, ",workdir=");
            push_str(&mut s, w.as_str());
        },
        None => {},
    }
    assert(s@ =~= overlay_text(opt_seq(ov.upper_dir), opt_seq(ov.work_dir)));
    s
}

impl Options {
    /// The default options: nothing set, `rprivate` propagation.
    pub fn new() -> (r: Options)
        ensures
            r@ == default_options(),
    {
        Options {
            read_only: false,
            selinux_relabel: None,
            overlay: None,
            chown: false,
            no_copy: false,
            devices: false,
            no_executables: false,
            suid: false,
            recursive_bind: false,
            bind_propagation: BindPropagation::RPrivate,
            idmap: None,
        }
    }

    /// Apply the flag option `name` to `self`; `false`, with `self` unchanged, for other names.
    #[verifier::rlimit(40)]
    fn apply_flag(&mut self, name: &str) -> (applied: bool)
        ensures
            applied == flag_step(old(self)@, name@) is Some,
            applied ==> flag_step(old(self)@, name@) == Some(final(self)@),
            !applied ==> final(self)@ == old(self)@,
    {
        if str_eq(name, "rw") {
            self.read_only = false;
        } else if str_eq(name, "ro") {
            self.read_only = true;
        } else if str_eq(name, "z") {
            self.selinux_relabel = Some(SELinuxRelabel::Shared);
        } else if str_eq(name, "Z") {
            self.selinux_relabel = Some(SELinuxRelabel::Private);
        } else if str_eq(name, "U") {
            self.chown = true;
        } else if str_eq(name, "nocopy") {
            self.no_copy = true;
        } else if str_eq(name, "copy") {
            self.no_copy = false;
        } else if str_eq(name, "nodev") {
            self.devices = false;
        } else if str_eq(name, "dev") {
            self.devices = true;
        } else if str_eq(name, "noexec") {
            self.no_executables = true;
        } else if str_eq(name, "exec") {
            self.no_executables = false;
        } else if str_eq(name, "nosuid") {
            self.suid = false;
        } else if str_eq(name, "suid") {
            self.suid = true;
        } else if str_eq(name, "rbind") {
            self.recursive_bind = true;
        } else if str_eq(name, "bind") {
            self.recursive_bind = false;
        } else {
            return false;
        }
        true
    }

    /// Apply the option `name`, with `value`, that is not a flag.
    fn apply_valued(self, name: String, value: Option<String>) -> (r: Result<Options, ParseOptionsError>)
        ensures
            match r {
                Ok(o) => valued_step(self@, name@, opt_seq(value)) == Ok::<OptionsView, OptionsErr>(
                    o@,
                ),
                Err(e) => valued_step(self@, name@, opt_seq(value)) == Err::<OptionsView, OptionsErr>(
                    e@,
                ),
            },
    {
        let mut o = self;
        let n = name.as_str();
        if str_eq(n, "O") {
            if o.overlay.is_some() {
                return Err(ParseOptionsError::Multiple("O"));
            }
            o.overlay = Some(Overlay { upper_dir: None, work_dir: None });
        } else if str_eq(n, "upperdir") {
            let v = match value {
                None => {
                    return Err(ParseOptionsError::RequiresValue("upperdir"));
                },
                Some(v) => v,
            };
            match o.overlay {
                None => {
                    return Err(ParseOptionsError::OverlayMissing);
                },
                Some(ov) => {
                    if ov.upper_dir.is_some() {
                        return Err(ParseOptionsError::Multiple("upperdir"));
                    }
                    o.overlay = Some(Overlay { upper_dir: Some(v), work_dir: ov.work_dir });
                },
            }
        } else if str_eq(n, "workdir") {
            let v = match value {
                None => {
                    return Err(ParseOptionsError::RequiresValue("workdir"));
                },
                Some(v) => v,
            };
            match o.overlay {
                None => {
                    return Err(ParseOptionsError::OverlayMissing);
                },
                Some(ov) => {
                    if ov.work_dir.is_some() {
                        return Err(ParseOptionsError::Multiple("workdir"));
                    }
                    o.overlay = Some(Overlay { upper_dir: ov.upper_dir, work_dir: Some(v) });
                },
            }
        } else if str_eq(n, "idmap") {
            if o.idmap.is_some() {
                return Err(ParseOptionsError::Multiple("idmap"));
            }
            match value {
                None => {
                    o.idmap = Some(Idmap::new());
                },
                Some(v) => match Idmap::parse(v.as_str()) {
                    Ok(m) => {
                        o.idmap = Some(m);
                    },
                    Err(e) => {
                        return Err(ParseOptionsError::Idmap(e));
                    },
                },
            }
        } else {
            match BindPropagation::parse(n) {
                Ok(p) => {
                    o.bind_propagation = p;
                },
                Err(_) => {
                    return Err(ParseOptionsError::Unknown(name));
                },
            }
        }
        Ok(o)
    }

    /// Parse one option, "name" or "name=value", and fold it into `self`.
    pub fn try_fold(self, option: &str) -> (r: Result<Options, ParseOptionsError>)
        ensures
            match r {
                Ok(o) => option_step(self@, option@) == Ok::<OptionsView, OptionsErr>(o@),
                Err(e) => option_step(self@, option@) == Err::<OptionsView, OptionsErr>(e@),
            },
    {
        let mut o = self;
        let (name, value): (String, Option<String>) = match str_split_once(option, '=') {
            None => (option.to_owned(), None),
            Some((k, v)) => if v.as_str().is_empty() {
                (k, None)
            } else {
                (k, Some(v))
            },
        };
        assert((name@, opt_seq(value)) == option_name_value(option@));
        if o.apply_flag(name.as_str()) {
            Ok(o)
        } else {
            o.apply_valued(name, value)
        }
    }

    /// Parse volume options from ":option\[=value\],...".
    pub fn parse(s: &str) -> (r: Result<Options, ParseOptionsError>)
        ensures
            match r {
                Ok(o) => parse_options(s@) == Ok::<OptionsView, OptionsErr>(o@),
                Err(e) => parse_options(s@) == Err::<OptionsView, OptionsErr>(e@),
            },
    {
        proof {
            reveal_strlit(":");
            assert(":"@ =~= seq![':']);
        }
        let body = match str_strip_prefix(s, ":") {
            Some(b) => b,
            None => s.to_owned(),
        };
        let pieces = str_split(body.as_str(), ',');
        let ghost all = split_terminator(body@, ',');
        let n = if pieces.len() > 0 && pieces[pieces.len() - 1].as_str().is_empty() {
            pieces.len() - 1
        } else {
            pieces.len()
        };
        proof {
            crate::text::lemma_split_props(body@, ',');
            assert(all =~= pieces.deep_view().subrange(0, n as int));
        }
        let mut o = Options::new();
        let mut i: usize = 0;
        while i < n
            invariant
                i <= n <= pieces@.len(),
                all == pieces.deep_view().subrange(0, n as int),
                parse_options(s@) == fold_options(all),
                fold_options(all.subrange(0, i as int)) == Ok::<OptionsView, OptionsErr>(o@),
            decreases n - i,
        {
            let ghost pre = all.subrange(0, i + 1);
            assert(pre.drop_last() =~= all.subrange(0, i as int));
            assert(pre.last() == pieces[i as int]@);
            match o.try_fold(pieces[i].as_str()) {
                Ok(next) => {
                    o = next;
                },
                Err(e) => {
                    proof {
                        lemma_fold_options_err(all, i as int, e@);
                    }
                    return Err(e);
                },
            }
            i = i + 1;
        }
        assert(all.subrange(0, n as int) =~= all);
        Ok(o)
    }

    /// The texts of the options that differ from the defaults, in the order they are written.
    fn items(&self) -> (v: Vec<String>)
        ensures
            v.deep_view() == option_items(self@),
    {
        let ghost o = self@;
        let mut v: Vec<String> = Vec::new();
        assert(v.deep_view() =~= Seq::<Seq<char>>::empty());
        if self.read_only {
            push_string(&mut v, "ro".to_owned());
        }
        let ghost a = push_if(Seq::<Seq<char>>::empty(), o.read_only, "ro"@);
        assert(v.deep_view() == a);
        match self.selinux_relabel {
            Some(r) => {
                let mut t = String::new();
                push_char(&mut t, r.to_char());
                assert(t@ =~= seq![relabel_char(r)]);
                push_string(&mut v, t);
            },
            None => {},
        }
        match &self.overlay {
            Some(ov) => {
                push_string(&mut v, overlay_string(ov));
            },
            None => {},
        }
        if self.chown {
            proof {
                reveal_strlit("U");
                assert("U"@ =~= seq!['U']);
            }
            push_string(&mut v, "U".to_owned());
        }
        if self.no_copy {
            push_string(&mut v, "nocopy".to_owned());
        }
        if self.devices {
            push_string(&mut v, "dev".to_owned());
        }
        if self.no_executables {
            push_string(&mut v, "noexec".to_owned());
        }
        if self.suid {
            push_string(&mut v, "suid".to_owned());
        }
        if self.recursive_bind {
            push_string(&mut v, "rbind".to_owned());
        }
        if self.bind_propagation != BindPropagation::RPrivate {
            push_string(&mut v, self.bind_propagation.to_string());
        }
        match &self.idmap {
            Some(m) => {
                if m.is_empty() {
                    push_string(&mut v, "idmap".to_owned());
                } else {
                    let mut t = String::new();
                    push_str(&mut t, "idmap=");
                    m.write_to(&mut t);
                    push_string(&mut v, t);
                }
            },
            None => {},
        }
        v
    }

    /// Append the text of these options to `out`: ":" and the options joined by ",".
    pub fn write_to(&self, out: &mut String)
        ensures
            final(out)@ == old(out)@ + options_text(self@),
    {
        let ghost o0 = out@;
        let items = self.items();
        if items.len() > 0 {
            push_char(out, ':');
            let joined = join_with(&items, ',');
            push_str(out, joined.as_str());
            assert(out@ =~= o0 + options_text(self@));
        } else {
            assert(out@ =~= o0 + options_text(self@));
        }
    }

    /// The text of these options: ":" and the options joined by ",", or nothing.
    pub fn to_string(&self) -> (s: String)
        ensures
            s@ == options_text(self@),
    {
        let mut s = String::new();
        self.write_to(&mut s);
        assert(s@ =~= options_text(self@));
        s
    }
}

/// Source of a [`Volume`].
#[derive(Debug, Clone, PartialEq, Eq)]
pub enum Source {
    /// Named volume source.
    NamedVolume(String),
    /// Host path source.
    HostPath(String),
}

/// [`Source`] with its text as a character sequence.
pub ghost enum SourceView {
    NamedVolume(Seq<char>),
    HostPath(Seq<char>),
}

impl View for Source {
    type V = SourceView;

    open spec fn view(&self) -> SourceView {
        match self {
            Source::NamedVolume(v) => SourceView::NamedVolume(v@),
            Source::HostPath(p) => SourceView::HostPath(p@),
        }
    }
}

/// A source is a host path when it starts with '.', '/', '~' or '%', else a named volume.
pub open spec fn source_of(s: Seq<char>) -> SourceView {
    if s.len() > 0 && (s[0] == '.' || s[0] == '/' || s[0] == '~' || s[0] == '%') {
        SourceView::HostPath(s)
    } else {
        SourceView::NamedVolume(s)
    }
}

/// The text of a source.
pub open spec fn source_text(s: SourceView) -> Seq<char> {
    match s {
        SourceView::NamedVolume(v) => v,
        SourceView::HostPath(p) => p,
    }
}

impl Source {
    /// Parse a [`Source`]: a host path when `s` starts with '.', '/', '~' or '%', else a named
    /// volume.
    pub fn parse(s: &str) -> (r: Source)
        ensures
            r@ == source_of(s@),
    {
        let c = if s.unicode_len() > 0 {
            s.get_char(0)
        } else {
            ' '
        };
        if s.unicode_len() > 0 && (c == '.' || c == '/' || c == '~' || c == '%') {
            Source::HostPath(s.to_owned())
        } else {
            Source::NamedVolume(s.to_owned())
        }
    }

    /// The text of this source.
    pub fn to_string(&self) -> (r: String)
        ensures
            r@ == source_text(self@),
    {
        match self {
            Source::NamedVolume(v) => v.clone(),
            Source::HostPath(p) => p.clone(),
        }
    }
}

/// Volume to mount to a container: "\[source:\]container_path\[:options\]".
#[derive(Debug, Clone, PartialEq, Eq)]
pub struct Volume {
    /// Optional source of the volume.
    pub source: Option<Source>,
    /// Path within the container to mount the volume to.
    pub container_path: String,
    /// Options for how to mount `source` into the container.
    pub options: Options,
}

/// [`Volume`] with its texts as character sequences.
pub ghost struct VolumeView {
    pub source: Option<SourceView>,
    pub container_path: Seq<char>,
    pub options: OptionsView,
}

impl View for Volume {
    type V = VolumeView;

    open spec fn view(&self) -> VolumeView {
        VolumeView {
            source: match self.source {
                Some(s) => Some(s@),
                None => None,
            },
            container_path: self.container_path@,
            options: self.options@,
        }
    }
}

/// Error returned when parsing a [`Volume`].
#[derive(Debug, Clone, PartialEq, Eq)]
pub enum ParseVolumeError {
    /// Given container path was not an absolute path.
    ContainerPathNotAbsolute(String),
    /// Error while parsing [`Options`].
    Options(ParseOptionsError),
}

/// [`ParseVolumeError`] with its text as a character sequence.
pub ghost enum VolumeErr {
    ContainerPathNotAbsolute(Seq<char>),
    Options(OptionsErr),
}

impl View for ParseVolumeError {
    type V = VolumeErr;

    open spec fn view(&self) -> VolumeErr {
        match self {
            ParseVolumeError::ContainerPathNotAbsolute(p) => VolumeErr::ContainerPathNotAbsolute(p@),
            ParseVolumeError::Options(e) => VolumeErr::Options(e@),
        }
    }
}

/// The parts "\[source:\]container_path\[:options\]" of a volume: at most three, split at ':'.
pub open spec fn volume_parts(s: Seq<char>) -> (Option<Seq<char>>, Seq<char>, Option<Seq<char>>) {
    match split_once(s, ':') {
        None => (None, s, None),
        Some((source, rest)) => match split_once(rest, ':') {
            None => (Some(source), rest, None),
            Some((path, options)) => (Some(source), path, Some(options)),
        },
    }
}

/// What parsing a volume gives: the container path must be absolute, then options are parsed.
pub open spec fn parse_volume(s: Seq<char>) -> Result<VolumeView, VolumeErr> {
    let (source, path, options) = volume_parts(s);
    if path.len() > 0 && path[0] == '/' {
        let src = match source {
            Some(x) => Some(source_of(x)),
            None => None,
        };
        match options {
            None => Ok(VolumeView { source: src, container_path: path, options: default_options() }),
            Some(o) => match parse_options(o) {
                Ok(ov) => Ok(VolumeView { source: src, container_path: path, options: ov }),
                Err(e) => Err(VolumeErr::Options(e)),
            },
        }
    } else {
        Err(VolumeErr::ContainerPathNotAbsolute(path))
    }
}

/// The text of a volume: "\[source:\]container_path\[:options\]".
pub open spec fn volume_text(v: VolumeView) -> Seq<char> {
    (match v.source {
        Some(s) => source_text(s).push(':'),
        None => Seq::<char>::empty(),
    }) + v.container_path + options_text(v.options)
}

impl Volume {
    /// A volume with only a container path.
    pub fn new(container_path: String) -> (r: Volume)
        ensures
            r@ == (VolumeView {
                source: None,
                container_path: container_path@,
                options: default_options(),
            }),
    {
        Volume { source: None, container_path, options: Options::new() }
    }

    /// Parse a [`Volume`] from "\[source:\]container_path\[:options\]".
    pub fn parse(s: &str) -> (r: Result<Volume, ParseVolumeError>)
        ensures
            match r {
                Ok(v) => parse_volume(s@) == Ok::<VolumeView, VolumeErr>(v@),
                Err(e) => parse_volume(s@) == Err::<VolumeView, VolumeErr>(e@),
            },
    {
        let (source, path, options): (Option<String>, String, Option<String>) = match str_split_once(
            s,
            ':',
        ) {
            None => (None, s.to_owned(), None),
            Some((a, rest)) => match str_split_once(rest.as_str(), ':') {
                None => (Some(a), rest, None),
                Some((p, o)) => (Some(a), p, Some(o)),
            },
        };
        assert((opt_seq(source), path@, opt_seq(options)) == volume_parts(s@));
        let absolute = str_starts_with(path.as_str(), "/");
        proof {
            reveal_strlit("/");
            if path@.len() > 0 && path@[0] == '/' {
                assert(path@.subrange(0, 1) =~= "/"@);
            }
            if absolute {
                assert(path@.subrange(0, 1)[0] == path@[0]);
            }
        }
        if !absolute {
            return Err(ParseVolumeError::ContainerPathNotAbsolute(path));
        }
        let src = match &source {
            Some(x) => Some(Source::parse(x.as_str())),
            None => None,
        };
        let opts = match &options {
            None => Options::new(),
            Some(o) => match Options::parse(o.as_str()) {
                Ok(ov) => ov,
                Err(e) => {
                    return Err(ParseVolumeError::Options(e));
                },
            },
        };
        Ok(Volume { source: src, container_path: path, options: opts })
    }

    /// The text of this volume: "\[source:\]container_path\[:options\]".
    pub fn to_string(&self) -> (r: String)
        ensures
            r@ == volume_text(self@),
    {
        let mut s = String::new();
        match &self.source {
            Some(src) => {
                let t = src.to_string();
                push_str(&mut s, t.as_str());
                push_char(&mut s, ':');
            },
            None => {},
        }
        push_str(&mut s, self.container_path.as_str());
        self.options.write_to(&mut s);
        assert(s@ =~= volume_text(self@));
        s
    }
}

} // verus!
