//! The user namespace [`Mode`] of `podman run --userns`, and what it becomes in a Quadlet file.

use vstd::prelude::*;

use crate::text::opt_seq;

use crate::num::{decimal, lemma_parse_decimal, parse_u32, parse_unsigned, write_decimal};
use crate::text::{join, lemma_join_push, join_with, lemma_not_prefix, push_some, push_str, push_string, split, split_once, str_eq, str_split, str_split_once, str_starts_with, str_strip_prefix, strip_prefix};

verus! {

/// User namespace mode.
#[derive(Debug, Clone, PartialEq, Eq)]
pub enum Mode {
    Auto { uidmapping: Option<String>, gidmapping: Option<String>, size: Option<u32> },
    Container { id: String },
    Host,
    KeepId { uid: Option<u32>, gid: Option<u32> },
    Nomap,
    Ns { namespace: String },
}

/// [`Mode`] with its texts as character sequences.
pub ghost enum ModeView {
    Auto { uidmapping: Option<Seq<char>>, gidmapping: Option<Seq<char>>, size: Option<u32> },
    Container { id: Seq<char> },
    Host,
    KeepId { uid: Option<u32>, gid: Option<u32> },
    Nomap,
    Ns { namespace: Seq<char> },
}

impl View for Mode {
    type V = ModeView;

    open spec fn view(&self) -> ModeView {
        match self {
            Mode::Auto { uidmapping, gidmapping, size } => ModeView::Auto {
                uidmapping: opt_seq(*uidmapping),
                gidmapping: opt_seq(*gidmapping),
                size: *size,
            },
            Mode::Container { id } => ModeView::Container { id: id@ },
            Mode::Host => ModeView::Host,
            Mode::KeepId { uid, gid } => ModeView::KeepId { uid: *uid, gid: *gid },
            Mode::Nomap => ModeView::Nomap,
            Mode::Ns { namespace } => ModeView::Ns { namespace: namespace@ },
        }
    }
}

/// Error returned when parsing a user namespace [`Mode`].
#[derive(Debug, Clone, PartialEq, Eq)]
pub enum ParseModeError {
    /// An unknown option of the auto mode.
    InvalidAutoOption(String),
    /// The size of the auto mode is not a `u32`.
    AutoSizeParseError { size: String },
    /// An unknown option of the keep-id mode.
    InvalidKeepIdOption(String),
    /// The UID of the keep-id mode is not a `u32`.
    KeepIdUidParseError { uid: String },
    /// The GID of the keep-id mode is not a `u32`.
    KeepIdGidParseError { gid: String },
    /// Not a user namespace mode.
    InvalidMode(String),
}

/// [`ParseModeError`] with its texts as character sequences.
pub ghost enum ModeErr {
    InvalidAutoOption(Seq<char>),
    AutoSizeParseError(Seq<char>),
    InvalidKeepIdOption(Seq<char>),
    KeepIdUidParseError(Seq<char>),
    KeepIdGidParseError(Seq<char>),
    InvalidMode(Seq<char>),
}

impl View for ParseModeError {
    type V = ModeErr;

    open spec fn view(&self) -> ModeErr {
        match self {
            ParseModeError::InvalidAutoOption(o) => ModeErr::InvalidAutoOption(o@),
            ParseModeError::AutoSizeParseError { size } => ModeErr::AutoSizeParseError(size@),
            ParseModeError::InvalidKeepIdOption(o) => ModeErr::InvalidKeepIdOption(o@),
            ParseModeError::KeepIdUidParseError { uid } => ModeErr::KeepIdUidParseError(uid@),
            ParseModeError::KeepIdGidParseError { gid } => ModeErr::KeepIdGidParseError(gid@),
            ParseModeError::InvalidMode(s) => ModeErr::InvalidMode(s@),
        }
    }
}

/// The options of the auto mode: UID mapping, GID mapping and size.
pub type AutoOptions = (Option<Seq<char>>, Option<Seq<char>>, Option<u32>);

/// Apply one option of the auto mode; the last of each kind counts.
pub open spec fn auto_step(a: AutoOptions, option: Seq<char>) -> Result<AutoOptions, ModeErr> {
    match strip_prefix(option, "uidmapping="@) {
        Some(v) => Ok((Some(v), a.1, a.2)),
        None => match strip_prefix(option, "gidmapping="@) {
            Some(v) => Ok((a.0, Some(v), a.2)),
            None => match strip_prefix(option, "size="@) {
                Some(v) => match parse_unsigned(v, 10, u32::MAX as nat) {
                    Some(n) => Ok((a.0, a.1, Some(n as u32))),
                    None => Err(ModeErr::AutoSizeParseError(v)),
                },
                None => Err(ModeErr::InvalidAutoOption(option)),
            },
        },
    }
}

/// Apply the options of the auto mode in order.
pub open spec fn fold_auto(options: Seq<Seq<char>>) -> Result<AutoOptions, ModeErr>
    decreases options.len(),
{
    if options.len() == 0 {
        Ok((None, None, None))
    } else {
        match fold_auto(options.drop_last()) {
            Ok(a) => auto_step(a, options.last()),
            Err(e) => Err(e),
        }
    }
}

/// Apply one option of the keep-id mode; the last of each kind counts.
pub open spec fn keep_id_step(a: (Option<u32>, Option<u32>), option: Seq<char>) -> Result<
    (Option<u32>, Option<u32>),
    ModeErr,
> {
    match strip_prefix(option, "uid="@) {
        Some(v) => match parse_unsigned(v, 10, u32::MAX as nat) {
            Some(n) => Ok((Some(n as u32), a.1)),
            None => Err(ModeErr::KeepIdUidParseError(v)),
        },
        None => match strip_prefix(option, "gid="@) {
            Some(v) => match parse_unsigned(v, 10, u32::MAX as nat) {
                Some(n) => Ok((a.0, Some(n as u32))),
                None => Err(ModeErr::KeepIdGidParseError(v)),
            },
            None => Err(ModeErr::InvalidKeepIdOption(option)),
        },
    }
}

/// Apply the options of the keep-id mode in order.
pub open spec fn fold_keep_id(options: Seq<Seq<char>>) -> Result<(Option<u32>, Option<u32>), ModeErr>
    decreases options.len(),
{
    if options.len() == 0 {
        Ok((None, None))
    } else {
        match fold_keep_id(options.drop_last()) {
            Ok(a) => keep_id_step(a, options.last()),
            Err(e) => Err(e),
        }
    }
}

/// What parsing a user namespace mode gives. The auto and keep-id modes take options after the
/// first ':', separated by ','.
pub open spec fn parse_mode(s: Seq<char>) -> Result<ModeView, ModeErr> {
    if "auto"@.is_prefix_of(s) {
        match split_once(s, ':') {
            None => Ok(ModeView::Auto { uidmapping: None, gidmapping: None, size: None }),
            Some((_, options)) => match fold_auto(split(options, ',')) {
                Ok(a) => Ok(ModeView::Auto { uidmapping: a.0, gidmapping: a.1, size: a.2 }),
                Err(e) => Err(e),
            },
        }
    } else if "container:"@.is_prefix_of(s) {
        Ok(ModeView::Container { id: s.subrange(10, s.len() as int) })
    } else if s == "host"@ {
        Ok(ModeView::Host)
    } else if "keep-id"@.is_prefix_of(s) {
        match split_once(s, ':') {
            None => Ok(ModeView::KeepId { uid: None, gid: None }),
            Some((_, options)) => match fold_keep_id(split(options, ',')) {
                Ok(a) => Ok(ModeView::KeepId { uid: a.0, gid: a.1 }),
                Err(e) => Err(e),
            },
        }
    } else if s == "nomap"@ {
        Ok(ModeView::Nomap)
    } else if "ns:"@.is_prefix_of(s) {
        Ok(ModeView::Ns { namespace: s.subrange(3, s.len() as int) })
    } else {
        Err(ModeErr::InvalidMode(s))
    }
}

/// An error at option `i` is the error of all the options.
proof fn lemma_fold_auto_err(options: Seq<Seq<char>>, i: int, e: ModeErr)
    requires
        0 <= i < options.len(),
        fold_auto(options.subrange(0, i + 1)) == Err::<AutoOptions, ModeErr>(e),
    ensures
        fold_auto(options) == Err::<AutoOptions, ModeErr>(e),
    decreases options.len() - i,
{
    if i + 1 < options.len() {
        assert(options.subrange(0, i + 2).drop_last() =~= options.subrange(0, i + 1));
        lemma_fold_auto_err(options, i + 1, e);
    } else {
        assert(options.subrange(0, i + 1) =~= options);
    }
}

/// An error at option `i` is the error of all the options.
proof fn lemma_fold_keep_id_err(options: Seq<Seq<char>>, i: int, e: ModeErr)
    requires
        0 <= i < options.len(),
        fold_keep_id(options.subrange(0, i + 1)) == Err::<(Option<u32>, Option<u32>), ModeErr>(e),
    ensures
        fold_keep_id(options) == Err::<(Option<u32>, Option<u32>), ModeErr>(e),
    decreases options.len() - i,
{
    if i + 1 < options.len() {
        assert(options.subrange(0, i + 2).drop_last() =~= options.subrange(0, i + 1));
        lemma_fold_keep_id_err(options, i + 1, e);
    } else {
        assert(options.subrange(0, i + 1) =~= options);
    }
}

/// Parse the options of the auto mode.
fn parse_auto_options(options: &str) -> (r: Result<Mode, ParseModeError>)
    ensures
        match r {
            Ok(m) => match fold_auto(split(options@, ',')) {
                Ok(a) => m@ == (ModeView::Auto { uidmapping: a.0, gidmapping: a.1, size: a.2 }),
                Err(_) => false,
            },
            Err(e) => fold_auto(split(options@, ',')) == Err::<AutoOptions, ModeErr>(e@),
        },
{
    let pieces = str_split(options, ',');
    let ghost all = split(options@, ',');
    let mut uidmapping: Option<String> = None;
    let mut gidmapping: Option<String> = None;
    let mut size: Option<u32> = None;
    let mut i: usize = 0;
    while i < pieces.len()
        invariant
            i <= pieces@.len(),
            all == pieces.deep_view(),
            all == split(options@, ','),
            fold_auto(all.subrange(0, i as int)) == Ok::<AutoOptions, ModeErr>(
                (opt_seq(uidmapping), opt_seq(gidmapping), size),
            ),
        decreases pieces@.len() - i,
    {
        let ghost pre = all.subrange(0, i + 1);
        assert(pre.drop_last() =~= all.subrange(0, i as int));
        assert(pre.last() == pieces[i as int]@);
        let option = pieces[i].as_str();
        match str_strip_prefix(option, "uidmapping=") {
            Some(v) => {
                uidmapping = Some(v);
            },
            None => match str_strip_prefix(option, "gidmapping=") {
                Some(v) => {
                    gidmapping = Some(v);
                },
                None => match str_strip_prefix(option, "size=") {
                    Some(v) => match parse_u32(v.as_str()) {
                        Some(n) => {
                            size = Some(n);
                        },
                        None => {
                            let err = ParseModeError::AutoSizeParseError { size: v };
                            proof {
                                lemma_fold_auto_err(all, i as int, err@);
                            }
                            return Err(err);
                        },
                    },
                    None => {
                        let err = ParseModeError::InvalidAutoOption(option.to_owned());
                        proof {
                            lemma_fold_auto_err(all, i as int, err@);
                        }
                        return Err(err);
                    },
                },
            },
        }
        i = i + 1;
    }
    assert(all.subrange(0, pieces@.len() as int) =~= all);
    Ok(Mode::Auto { uidmapping, gidmapping, size })
}

/// Parse the options of the keep-id mode.
fn parse_keep_id_options(options: &str) -> (r: Result<Mode, ParseModeError>)
    ensures
        match r {
            Ok(m) => match fold_keep_id(split(options@, ',')) {
                Ok(a) => m@ == (ModeView::KeepId { uid: a.0, gid: a.1 }),
                Err(_) => false,
            },
            Err(e) => fold_keep_id(split(options@, ',')) == Err::<
                (Option<u32>, Option<u32>),
                ModeErr,
            >(e@),
        },
{
    let pieces = str_split(options, ',');
    let ghost all = split(options@, ',');
    let mut uid: Option<u32> = None;
    let mut gid: Option<u32> = None;
    let mut i: usize = 0;
    while i < pieces.len()
        invariant
            i <= pieces@.len(),
            all == pieces.deep_view(),
            all == split(options@, ','),
            fold_keep_id(all.subrange(0, i as int)) == Ok::<(Option<u32>, Option<u32>), ModeErr>(
                (uid, gid),
            ),
        decreases pieces@.len() - i,
    {
        let ghost pre = all.subrange(0, i + 1);
        assert(pre.drop_last() =~= all.subrange(0, i as int));
        assert(pre.last() == pieces[i as int]@);
        let option = pieces[i].as_str();
        match str_strip_prefix(option, "uid=") {
            Some(v) => match parse_u32(v.as_str()) {
                Some(n) => {
                    uid = Some(n);
                },
                None => {
                    proof {
                        lemma_fold_keep_id_err(all, i as int, ModeErr::KeepIdUidParseError(v@));
                    }
                    return Err(ParseModeError::KeepIdUidParseError { uid: v });
                },
            },
            None => match str_strip_prefix(option, "gid=") {
                Some(v) => match parse_u32(v.as_str()) {
                    Some(n) => {
                        gid = Some(n);
                    },
                    None => {
                        proof {
                            lemma_fold_keep_id_err(all, i as int, ModeErr::KeepIdGidParseError(v@));
                        }
                        return Err(ParseModeError::KeepIdGidParseError { gid: v });
                    },
                },
                None => {
                    proof {
                        lemma_fold_keep_id_err(all, i as int, ModeErr::InvalidKeepIdOption(option@));
                    }
                    return Err(ParseModeError::InvalidKeepIdOption(option.to_owned()));
                },
            },
        }
        i = i + 1;
    }
    assert(all.subrange(0, pieces@.len() as int) =~= all);
    Ok(Mode::KeepId { uid, gid })
}

impl Mode {
    /// Parse a user namespace mode.
    pub fn parse(s: &str) -> (r: Result<Mode, ParseModeError>)
        ensures
            match r {
                Ok(m) => parse_mode(s@) == Ok::<ModeView, ModeErr>(m@),
                Err(e) => parse_mode(s@) == Err::<ModeView, ModeErr>(e@),
            },
    {
        if str_starts_with(s, "auto") {
            match str_split_once(s, ':') {
                None => Ok(Mode::Auto { uidmapping: None, gidmapping: None, size: None }),
                Some((_, options)) => parse_auto_options(options.as_str()),
            }
        } else if str_starts_with(s, "container:") {
            proof {
                reveal_strlit("container:");
            }
            match str_strip_prefix(s, "container:") {
                Some(id) => Ok(Mode::Container { id }),
                None => Err(ParseModeError::InvalidMode(s.to_owned())),
            }
        } else if str_eq(s, "host") {
            Ok(Mode::Host)
        } else if str_starts_with(s, "keep-id") {
            match str_split_once(s, ':') {
                None => Ok(Mode::KeepId { uid: None, gid: None }),
                Some((_, options)) => parse_keep_id_options(options.as_str()),
            }
        } else if str_eq(s, "nomap") {
            Ok(Mode::Nomap)
        } else if str_starts_with(s, "ns:") {
            proof {
                reveal_strlit("ns:");
            }
            match str_strip_prefix(s, "ns:") {
                Some(namespace) => Ok(Mode::Ns { namespace }),
                None => Err(ParseModeError::InvalidMode(s.to_owned())),
            }
        } else {
            Err(ParseModeError::InvalidMode(s.to_owned()))
        }
    }
}

/// What an option of a container becomes in a Quadlet file.
#[derive(Debug, Clone, PartialEq, Eq)]
pub enum Output {
    /// Quadlet options, one "Key=value" per line.
    QuadletOptions(String),
    /// An argument of `PodmanArgs=`.
    PodmanArg(String),
}

/// [`Output`] with its text as a character sequence.
pub ghost enum OutputView {
    QuadletOptions(Seq<char>),
    PodmanArg(Seq<char>),
}

impl View for Output {
    type V = OutputView;

    open spec fn view(&self) -> OutputView {
        match self {
            Output::QuadletOptions(s) => OutputView::QuadletOptions(s@),
            Output::PodmanArg(s) => OutputView::PodmanArg(s@),
        }
    }
}

/// The Quadlet options of the auto mode.
pub open spec fn auto_lines(u: Option<Seq<char>>, g: Option<Seq<char>>, size: Option<u32>) -> Seq<
    Seq<char>,
> {
    let a = push_some(seq!["RemapUsers=auto"@], u, |x: Seq<char>| "RemapUid="@ + x);
    let a = push_some(a, g, |x: Seq<char>| "RemapGid="@ + x);
    push_some(a, size, |n: u32| "RemapUidSize="@ + decimal(n as nat))
}

/// The options of the keep-id mode.
pub open spec fn keep_id_items(uid: Option<u32>, gid: Option<u32>) -> Seq<Seq<char>> {
    let a = push_some(Seq::<Seq<char>>::empty(), uid, |n: u32| "uid="@ + decimal(n as nat));
    push_some(a, gid, |n: u32| "gid="@ + decimal(n as nat))
}

/// What a user namespace mode becomes: Quadlet options for the auto mode and for keep-id
/// without options, else an argument of `--userns`.
pub open spec fn mode_output(m: ModeView) -> OutputView {
    match m {
        ModeView::Auto { uidmapping, gidmapping, size } => OutputView::QuadletOptions(
            join(auto_lines(uidmapping, gidmapping, size), seq!['\n']),
        ),
        ModeView::Container { id } => OutputView::PodmanArg("container:"@ + id),
        ModeView::Host => OutputView::PodmanArg("host"@),
        ModeView::KeepId { uid, gid } => if uid is Some || gid is Some {
            OutputView::PodmanArg("keep-id:"@ + join(keep_id_items(uid, gid), seq![',']))
        } else {
            OutputView::QuadletOptions("RemapUsers=keep-id"@)
        },
        ModeView::Nomap => OutputView::PodmanArg("nomap"@),
        ModeView::Ns { namespace } => OutputView::PodmanArg("ns:"@ + namespace),
    }
}

/// "name=" and the decimal text of `n`.
fn name_number(name: &str, n: u32) -> (s: String)
    ensures
        s@ == name@ + decimal(n as nat),
{
    let mut s = String::new();
    push_str(&mut s, name);
    write_decimal(&mut s, n as u128);
    assert(s@ =~= name@ + decimal(n as nat));
    s
}

/// `prefix` followed by `rest`.
fn concat(prefix: &str, rest: &str) -> (s: String)
    ensures
        s@ == prefix@ + rest@,
{
    let mut s = String::new();
    push_str(&mut s, prefix);
    push_str(&mut s, rest);
    assert(s@ =~= prefix@ + rest@);
    s
}

impl Output {
    /// What the user namespace mode `mode` becomes in a Quadlet file.
    pub fn from_mode(mode: &Mode) -> (r: Output)
        ensures
            r@ == mode_output(mode@),
    {
        match mode {
            Mode::Auto { uidmapping, gidmapping, size } => {
                let mut lines: Vec<String> = Vec::new();
                push_string(&mut lines, "RemapUsers=auto".to_owned());
                assert(lines.deep_view() =~= seq!["RemapUsers=auto"@]);
                match uidmapping {
                    Some(u) => push_string(&mut lines, concat("RemapUid=", u.as_str())),
                    None => {},
                }
                match gidmapping {
                    Some(g) => push_string(&mut lines, concat("RemapGid=", g.as_str())),
                    None => {},
                }
                match size {
                    Some(n) => push_string(&mut lines, name_number("RemapUidSize=", *n)),
                    None => {},
                }
                Output::QuadletOptions(join_with(&lines, '\n'))
            },
            Mode::Container { id } => Output::PodmanArg(concat("container:", id.as_str())),
            Mode::Host => Output::PodmanArg("host".to_owned()),
            Mode::KeepId { uid, gid } => {
                if uid.is_some() || gid.is_some() {
                    let mut items: Vec<String> = Vec::new();
                    assert(items.deep_view() =~= Seq::<Seq<char>>::empty());
                    match uid {
                        Some(n) => push_string(&mut items, name_number("uid=", *n)),
                        None => {},
                    }
                    match gid {
                        Some(n) => push_string(&mut items, name_number("gid=", *n)),
                        None => {},
                    }
                    let joined = join_with(&items, ',');
                    Output::PodmanArg(concat("keep-id:", joined.as_str()))
                } else {
                    Output::QuadletOptions("RemapUsers=keep-id".to_owned())
                }
            },
            Mode::Nomap => Output::PodmanArg("nomap".to_owned()),
            Mode::Ns { namespace } => Output::PodmanArg(concat("ns:", namespace.as_str())),
        }
    }
}

/// An argument of `--userns` that a mode becomes parses back to that mode.
pub proof fn podman_arg_round_trip(m: ModeView)
    requires
        mode_output(m) is PodmanArg,
    ensures
        parse_mode(mode_output(m)->PodmanArg_0) == Ok::<ModeView, ModeErr>(m),
{
    reveal_strlit("auto");
    reveal_strlit("container:");
    reveal_strlit("host");
    reveal_strlit("keep-id");
    reveal_strlit("keep-id:");
    reveal_strlit("nomap");
    reveal_strlit("ns:");
    let arg = mode_output(m)->PodmanArg_0;
    match m {
        ModeView::Container { id } => {
            lemma_not_prefix("auto"@, arg, 0);
            assert(arg.subrange(0, 10) =~= "container:"@);
            assert(arg.subrange(10, arg.len() as int) =~= id);
        },
        ModeView::Host => {
            lemma_not_prefix("auto"@, arg, 0);
            assert(!"container:"@.is_prefix_of(arg));
        },
        ModeView::KeepId { uid, gid } => {
            lemma_keep_id_round_trip(uid, gid);
        },
        ModeView::Nomap => {
            lemma_not_prefix("auto"@, arg, 0);
            lemma_not_prefix("container:"@, arg, 0);
            lemma_not_prefix("keep-id"@, arg, 0);
        },
        ModeView::Ns { namespace } => {
            assert(arg.subrange(0, 3) =~= "ns:"@);
            assert(arg[0] == 'n' && arg[1] == 's');
            lemma_not_prefix("auto"@, arg, 0);
            lemma_not_prefix("container:"@, arg, 0);
            assert(arg != "host"@) by {
                assert(arg[0] == 'n');
            }
            lemma_not_prefix("keep-id"@, arg, 0);
            assert(arg != "nomap"@) by {
                assert(arg[1] == 's');
            }
            assert(arg.subrange(3, arg.len() as int) =~= namespace);
        },
        _ => {},
    }
}

/// The keep-id argument parses back to its UID and GID.
proof fn lemma_keep_id_round_trip(uid: Option<u32>, gid: Option<u32>)
    requires
        uid is Some || gid is Some,
    ensures
        parse_mode("keep-id:"@ + join(keep_id_items(uid, gid), seq![','])) == Ok::<
            ModeView,
            ModeErr,
        >(ModeView::KeepId { uid, gid }),
{
    reveal_strlit("auto");
    reveal_strlit("container:");
    reveal_strlit("host");
    reveal_strlit("keep-id");
    reveal_strlit("keep-id:");
    reveal_strlit("uid=");
    reveal_strlit("gid=");
    let items = keep_id_items(uid, gid);
    let body = join(items, seq![',']);
    let arg = "keep-id:"@ + body;
    assert(arg[0] == 'k');
    lemma_not_prefix("auto"@, arg, 0);
    lemma_not_prefix("container:"@, arg, 0);
    assert(arg != "host"@);
    assert(arg.subrange(0, 7) =~= "keep-id"@);
    crate::text::lemma_split_once_concat("keep-id"@, body, ':');
    assert("keep-id"@ + seq![':'] + body =~= arg);
    assert(!crate::text::has_char("keep-id"@, ':')) by {
        if crate::text::has_char("keep-id"@, ':') {
            let i = choose|i: int| 0 <= i < 7 && "keep-id"@[i] == ':';
        }
    }
    assert(split_once(arg, ':') == Some(("keep-id"@, body)));
    let d1 = match uid {
        Some(n) => decimal(n as nat),
        None => Seq::<char>::empty(),
    };
    let d2 = match gid {
        Some(n) => decimal(n as nat),
        None => Seq::<char>::empty(),
    };
    match uid {
        Some(n) => {
            lemma_parse_decimal(n as nat, u32::MAX as nat);
            crate::num::lemma_digits_of(n as nat, 10);
        },
        None => {},
    }
    match gid {
        Some(n) => {
            lemma_parse_decimal(n as nat, u32::MAX as nat);
            crate::num::lemma_digits_of(n as nat, 10);
        },
        None => {},
    }
    assert forall|k: int| 0 <= k < items.len() implies !crate::text::has_char(
        #[trigger] items[k],
        ',',
    ) by {
        let it = items[k];
        if crate::text::has_char(it, ',') {
            let j = choose|j: int| 0 <= j < it.len() && it[j] == ',';
            assert(j >= 4);
        }
    }
    crate::text::lemma_split_join(items, ',');
    assert(split(body, ',') == items);
    let e = Seq::<Seq<char>>::empty();
    assert(fold_keep_id(e) == Ok::<(Option<u32>, Option<u32>), ModeErr>((None, None)));
    let after_uid: (Option<u32>, Option<u32>) = (uid, None);
    let a1 = push_some(e, uid, |n: u32| "uid="@ + decimal(n as nat));
    match uid {
        Some(n) => {
            let it = "uid="@ + decimal(n as nat);
            assert(it.subrange(0, 4) =~= "uid="@);
            assert(it.subrange(4, it.len() as int) =~= decimal(n as nat));
            assert(strip_prefix(it, "uid="@) == Some(decimal(n as nat)));
            assert(a1 =~= seq![it]);
            assert(a1.drop_last() =~= e);
            assert(fold_keep_id(a1) == keep_id_step((None, None), it));
        },
        None => {
            assert(a1 == e);
        },
    }
    assert(fold_keep_id(a1) == Ok::<(Option<u32>, Option<u32>), ModeErr>(after_uid));
    match gid {
        Some(n) => {
            let it = "gid="@ + decimal(n as nat);
            assert(it.subrange(0, 4) =~= "gid="@);
            assert(it.subrange(4, it.len() as int) =~= decimal(n as nat));
            lemma_not_prefix("uid="@, it, 0);
            assert(strip_prefix(it, "gid="@) == Some(decimal(n as nat)));
            assert(items =~= a1.push(it));
            assert(items.drop_last() =~= a1);
            assert(fold_keep_id(items) == keep_id_step(after_uid, it));
        },
        None => {
            assert(items == a1);
        },
    }
    assert(fold_keep_id(items) == Ok::<(Option<u32>, Option<u32>), ModeErr>((uid, gid)));
}

/// The Quadlet options of the auto mode are "RemapUsers=auto", then, each on a line of its own
/// and each exactly when it is given, "RemapUid=" with the UID mapping, "RemapGid=" with the GID
/// mapping, and "RemapUidSize=" with the size; no option depends on another.
pub proof fn auto_mode_options(
    uidmapping: Option<Seq<char>>,
    gidmapping: Option<Seq<char>>,
    size: Option<u32>,
)
    ensures
        mode_output(ModeView::Auto { uidmapping, gidmapping, size }) == OutputView::QuadletOptions(
            "RemapUsers=auto"@ + match uidmapping {
                Some(u) => seq!['\n'] + "RemapUid="@ + u,
                None => Seq::<char>::empty(),
            } + match gidmapping {
                Some(g) => seq!['\n'] + "RemapGid="@ + g,
                None => Seq::<char>::empty(),
            } + match size {
                Some(n) => seq!['\n'] + "RemapUidSize="@ + decimal(n as nat),
                None => Seq::<char>::empty(),
            },
        ),
{
    let nl = seq!['\n'];
    let a0 = seq!["RemapUsers=auto"@];
    let a1 = push_some(a0, uidmapping, |x: Seq<char>| "RemapUid="@ + x);
    let a2 = push_some(a1, gidmapping, |x: Seq<char>| "RemapGid="@ + x);
    let a3 = push_some(a2, size, |n: u32| "RemapUidSize="@ + decimal(n as nat));
    assert(a3 == auto_lines(uidmapping, gidmapping, size));
    let t0 = "RemapUsers=auto"@;
    assert(join(a0, nl) == t0);
    let t1 = t0 + match uidmapping {
        Some(u) => nl + "RemapUid="@ + u,
        None => Seq::<char>::empty(),
    };
    if let Some(u) = uidmapping {
        lemma_join_push(a0, "RemapUid="@ + u, nl);
        assert(t0 + nl + ("RemapUid="@ + u) =~= t1);
    } else {
        assert(t0 + Seq::<char>::empty() =~= t0);
    }
    assert(join(a1, nl) == t1);
    assert(a1.len() > 0);
    let t2 = t1 + match gidmapping {
        Some(g) => nl + "RemapGid="@ + g,
        None => Seq::<char>::empty(),
    };
    if let Some(g) = gidmapping {
        lemma_join_push(a1, "RemapGid="@ + g, nl);
        assert(t1 + nl + ("RemapGid="@ + g) =~= t2);
    } else {
        assert(t1 + Seq::<char>::empty() =~= t1);
    }
    assert(join(a2, nl) == t2);
    assert(a2.len() > 0);
    let t3 = t2 + match size {
        Some(n) => nl + "RemapUidSize="@ + decimal(n as nat),
        None => Seq::<char>::empty(),
    };
    if let Some(n) = size {
        lemma_join_push(a2, "RemapUidSize="@ + decimal(n as nat), nl);
        assert(t2 + nl + ("RemapUidSize="@ + decimal(n as nat)) =~= t3);
    } else {
        assert(t2 + Seq::<char>::empty() =~= t2);
    }
    assert(join(a3, nl) == t3);
}


/// Only the auto mode and keep-id without options become Quadlet options (keep-id as
/// "RemapUsers=keep-id"); every other mode stays an argument of `--userns`.
pub proof fn quadlet_option_modes(m: ModeView)
    ensures
        mode_output(m) is QuadletOptions <==> (m is Auto || m == (ModeView::KeepId {
            uid: None,
            gid: None,
        })),
        m == (ModeView::KeepId { uid: None, gid: None }) ==> mode_output(m)
            == OutputView::QuadletOptions("RemapUsers=keep-id"@),
{
}

} // verus!
