//! The driver options of `podman volume create --opt`, and the `.volume` Quadlet options they
//! become.

use vstd::prelude::*;

use crate::text::opt_seq;

use crate::text::{push_char, push_str, split, split_once, str_eq, str_split, str_split_once, str_strip_prefix, strip_prefix};

verus! {

/// A mount option given with `--opt o=`.
#[derive(Debug, Clone, PartialEq, Eq)]
pub enum Mount {
    Uid(String),
    Gid(String),
    Other(String),
}

/// [`Mount`] with its text as a character sequence.
pub ghost enum MountView {
    Uid(Seq<char>),
    Gid(Seq<char>),
    Other(Seq<char>),
}

impl View for Mount {
    type V = MountView;

    open spec fn view(&self) -> MountView {
        match self {
            Mount::Uid(s) => MountView::Uid(s@),
            Mount::Gid(s) => MountView::Gid(s@),
            Mount::Other(s) => MountView::Other(s@),
        }
    }
}

/// What parsing a mount option gives.
pub open spec fn parse_mount_opt(s: Seq<char>) -> MountView {
    match strip_prefix(s, "uid="@) {
        Some(u) => MountView::Uid(u),
        None => match strip_prefix(s, "gid="@) {
            Some(g) => MountView::Gid(g),
            None => MountView::Other(s),
        },
    }
}

impl Mount {
    /// Parse a mount option: "uid=UID", "gid=GID", or any other.
    pub fn parse(s: &str) -> (r: Mount)
        ensures
            r@ == parse_mount_opt(s@),
    {
        if let Some(u) = str_strip_prefix(s, "uid=") {
            Mount::Uid(u)
        } else if let Some(g) = str_strip_prefix(s, "gid=") {
            Mount::Gid(g)
        } else {
            Mount::Other(s.to_owned())
        }
    }
}

/// A driver option of a volume.
#[derive(Debug, Clone, PartialEq, Eq)]
pub enum Opt {
    /// `--opt type=`
    Type(String),
    /// `--opt device=`
    Device(String),
    /// `--opt copy`
    Copy,
    /// `--opt o=`
    Mount(Vec<Mount>),
    /// `--opt image=`
    Image(String),
}

/// [`Opt`] with its texts as character sequences.
pub ghost enum OptView {
    Type(Seq<char>),
    Device(Seq<char>),
    Copy,
    Mount(Seq<MountView>),
    Image(Seq<char>),
}

impl View for Opt {
    type V = OptView;

    open spec fn view(&self) -> OptView {
        match self {
            Opt::Type(s) => OptView::Type(s@),
            Opt::Device(s) => OptView::Device(s@),
            Opt::Copy => OptView::Copy,
            Opt::Mount(ms) => OptView::Mount(ms@.map_values(|m: Mount| m@)),
            Opt::Image(s) => OptView::Image(s@),
        }
    }
}

/// Error returned when parsing an [`Opt`].
#[derive(Debug, Clone, PartialEq, Eq)]
pub enum ParseOptError {
    /// Not a volume driver option: the option, with "=value" when it had one.
    InvalidVolumeDriverOption(String),
}

/// What parsing the option `option` with `value` gives; `Err` holds the text of the option.
pub open spec fn parse_opt(option: Seq<char>, value: Option<Seq<char>>) -> Result<OptView, Seq<char>> {
    match value {
        Some(v) => if option == "type"@ {
            Ok(OptView::Type(v))
        } else if option == "device"@ {
            Ok(OptView::Device(v))
        } else if option == "o"@ {
            Ok(OptView::Mount(split(v, ',').map_values(|o: Seq<char>| parse_mount_opt(o))))
        } else if option == "image"@ {
            Ok(OptView::Image(v))
        } else {
            Err(option + seq!['='] + v)
        },
        None => if option == "copy"@ {
            Ok(OptView::Copy)
        } else {
            Err(option)
        },
    }
}

/// What parsing "option\[=value\]" gives.
pub open spec fn parse_opt_str(s: Seq<char>) -> Result<OptView, Seq<char>> {
    match split_once(s, '=') {
        Some((option, value)) => parse_opt(option, Some(value)),
        None => parse_opt(s, None),
    }
}

impl Opt {
    /// Parse the option `option` with `value`, as `--opt <option>[=<value>]` gives them.
    pub fn parse(option: &str, value: Option<String>) -> (r: Result<Opt, ParseOptError>)
        ensures
            match r {
                Ok(o) => parse_opt(option@, opt_seq(value)) == Ok::<OptView, Seq<char>>(o@),
                Err(ParseOptError::InvalidVolumeDriverOption(t)) => parse_opt(option@, opt_seq(value))
                    == Err::<OptView, Seq<char>>(t@),
            },
    {
        match value {
            Some(v) => {
                if str_eq(option, "type") {
                    Ok(Opt::Type(v))
                } else if str_eq(option, "device") {
                    Ok(Opt::Device(v))
                } else if str_eq(option, "o") {
                    let pieces = str_split(v.as_str(), ',');
                    let mut ms: Vec<Mount> = Vec::new();
                    let mut i: usize = 0;
                    while i < pieces.len()
                        invariant
                            i <= pieces@.len(),
                            ms@.map_values(|m: Mount| m@) == pieces.deep_view().subrange(
                                0,
                                i as int,
                            ).map_values(|o: Seq<char>| parse_mount_opt(o)),
                        decreases pieces@.len() - i,
                    {
                        let m = Mount::parse(pieces[i].as_str());
                        let ghost before = ms@;
                        ms.push(m);
                        proof {
                            let f = |o: Seq<char>| parse_mount_opt(o);
                            assert(pieces.deep_view().subrange(0, i + 1).map_values(f)
                                =~= pieces.deep_view().subrange(0, i as int).map_values(f).push(
                                parse_mount_opt(pieces[i as int]@),
                            ));
                            assert(ms@.map_values(|m: Mount| m@) =~= before.map_values(
                                |m: Mount| m@,
                            ).push(m@));
                        }
                        i = i + 1;
                    }
                    assert(pieces.deep_view().subrange(0, pieces@.len() as int) =~= pieces.deep_view());
                    Ok(Opt::Mount(ms))
                } else if str_eq(option, "image") {
                    Ok(Opt::Image(v))
                } else {
                    let mut t = option.to_owned();
                    push_char(&mut t, '=');
                    push_str(&mut t, v.as_str());
                    assert(t@ =~= option@ + seq!['='] + v@);
                    Err(ParseOptError::InvalidVolumeDriverOption(t))
                }
            },
            None => {
                if str_eq(option, "copy") {
                    Ok(Opt::Copy)
                } else {
                    Err(ParseOptError::InvalidVolumeDriverOption(option.to_owned()))
                }
            },
        }
    }

    /// Parse "option\[=value\]", split at the first '='.
    pub fn parse_str(s: &str) -> (r: Result<Opt, ParseOptError>)
        ensures
            match r {
                Ok(o) => parse_opt_str(s@) == Ok::<OptView, Seq<char>>(o@),
                Err(ParseOptError::InvalidVolumeDriverOption(t)) => parse_opt_str(s@) == Err::<
                    OptView,
                    Seq<char>,
                >(t@),
            },
    {
        match str_split_once(s, '=') {
            Some((option, value)) => Opt::parse(option.as_str(), Some(value)),
            None => Opt::parse(s, None),
        }
    }
}

/// The `.volume` Quadlet options that driver options set.
#[derive(Debug, Clone, PartialEq, Eq)]
pub struct DriverOptions {
    /// `Type=`
    pub fs_type: Option<String>,
    /// `Device=`
    pub device: Option<String>,
    /// `Copy=`
    pub copy: bool,
    /// `User=`
    pub user: Option<String>,
    /// `Group=`
    pub group: Option<String>,
    /// `Options=`: the other mount options, joined by ','.
    pub options: Option<String>,
    /// `Image=`
    pub image: Option<String>,
}

/// [`DriverOptions`] with its texts as character sequences.
pub ghost struct DriverOptionsView {
    pub fs_type: Option<Seq<char>>,
    pub device: Option<Seq<char>>,
    pub copy: bool,
    pub user: Option<Seq<char>>,
    pub group: Option<Seq<char>>,
    pub options: Option<Seq<char>>,
    pub image: Option<Seq<char>>,
}

impl View for DriverOptions {
    type V = DriverOptionsView;

    open spec fn view(&self) -> DriverOptionsView {
        DriverOptionsView {
            fs_type: opt_seq(self.fs_type),
            device: opt_seq(self.device),
            copy: self.copy,
            user: opt_seq(self.user),
            group: opt_seq(self.group),
            options: opt_seq(self.options),
            image: opt_seq(self.image),
        }
    }
}

/// Nothing set.
pub open spec fn no_options() -> DriverOptionsView {
    DriverOptionsView {
        fs_type: None,
        device: None,
        copy: false,
        user: None,
        group: None,
        options: None,
        image: None,
    }
}

/// Apply one mount option: a UID or GID sets the user or group, others are appended to the
/// options after a ','.
pub open spec fn mount_step(d: DriverOptionsView, m: MountView) -> DriverOptionsView {
    match m {
        MountView::Uid(u) => DriverOptionsView { user: Some(u), ..d },
        MountView::Gid(g) => DriverOptionsView { group: Some(g), ..d },
        MountView::Other(o) => DriverOptionsView {
            options: Some(
                match d.options {
                    Some(prev) => prev + seq![','] + o,
                    None => o,
                },
            ),
            ..d
        },
    }
}

/// Apply mount options in order.
pub open spec fn mount_steps(d: DriverOptionsView, ms: Seq<MountView>) -> DriverOptionsView
    decreases ms.len(),
{
    if ms.len() == 0 {
        d
    } else {
        mount_step(mount_steps(d, ms.drop_last()), ms.last())
    }
}

/// Apply one driver option; the last of each kind counts.
pub open spec fn opt_step(d: DriverOptionsView, o: OptView) -> DriverOptionsView {
    match o {
        OptView::Type(t) => DriverOptionsView { fs_type: Some(t), ..d },
        OptView::Device(v) => DriverOptionsView { device: Some(v), ..d },
        OptView::Copy => DriverOptionsView { copy: true, ..d },
        OptView::Mount(ms) => mount_steps(d, ms),
        OptView::Image(i) => DriverOptionsView { image: Some(i), ..d },
    }
}

/// Apply driver options in order, starting from nothing set.
pub open spec fn fold_opts(os: Seq<OptView>) -> DriverOptionsView
    decreases os.len(),
{
    if os.len() == 0 {
        no_options()
    } else {
        opt_step(fold_opts(os.drop_last()), os.last())
    }
}

impl DriverOptions {
    /// Apply one mount option.
    fn apply_mount(&mut self, m: &Mount)
        ensures
            final(self)@ == mount_step(old(self)@, m@),
    {
        match m {
            Mount::Uid(u) => {
                self.user = Some(u.clone());
            },
            Mount::Gid(g) => {
                self.group = Some(g.clone());
            },
            Mount::Other(o) => {
                let joined = match &self.options {
                    Some(prev) => {
                        let mut t = prev.clone();
                        push_char(&mut t, ',');
                        push_str(&mut t, o.as_str());
                        assert(t@ =~= prev@ + seq![','] + o@);
                        t
                    },
                    None => o.clone(),
                };
                self.options = Some(joined);
            },
        }
    }

    /// Apply one driver option.
    fn apply(&mut self, o: &Opt)
        ensures
            final(self)@ == opt_step(old(self)@, o@),
    {
        match o {
            Opt::Type(t) => {
                self.fs_type = Some(t.clone());
            },
            Opt::Device(v) => {
                self.device = Some(v.clone());
            },
            Opt::Copy => {
                self.copy = true;
            },
            Opt::Mount(ms) => {
                let ghost start = self@;
                let ghost all = ms@.map_values(|m: Mount| m@);
                let mut i: usize = 0;
                while i < ms.len()
                    invariant
                        i <= ms@.len(),
                        all == ms@.map_values(|m: Mount| m@),
                        self@ == mount_steps(start, all.subrange(0, i as int)),
                    decreases ms@.len() - i,
                {
                    let ghost pre = all.subrange(0, i + 1);
                    assert(pre.drop_last() =~= all.subrange(0, i as int));
                    self.apply_mount(&ms[i]);
                    i = i + 1;
                }
                assert(all.subrange(0, ms@.len() as int) =~= all);
            },
            Opt::Image(i) => {
                self.image = Some(i.clone());
            },
        }
    }

    /// The Quadlet options that the driver options `opts` set, applied in order.
    pub fn from_opts(opts: &Vec<Opt>) -> (r: DriverOptions)
        ensures
            r@ == fold_opts(opts@.map_values(|o: Opt| o@)),
    {
        let ghost all = opts@.map_values(|o: Opt| o@);
        let mut d = DriverOptions {
            fs_type: None,
            device: None,
            copy: false,
            user: None,
            group: None,
            options: None,
            image: None,
        };
        let mut i: usize = 0;
        while i < opts.len()
            invariant
                i <= opts@.len(),
                all == opts@.map_values(|o: Opt| o@),
                d@ == fold_opts(all.subrange(0, i as int)),
            decreases opts@.len() - i,
        {
            let ghost pre = all.subrange(0, i + 1);
            assert(pre.drop_last() =~= all.subrange(0, i as int));
            d.apply(&opts[i]);
            i = i + 1;
        }
        assert(all.subrange(0, opts@.len() as int) =~= all);
        d
    }
}

} // verus!
