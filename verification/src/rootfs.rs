//! [`Rootfs`]: an exploded container on the file system, for the `Rootfs=` Quadlet option.
//!
//! The text format is "PATH\[:\[O\]\[,idmap\[=IDMAP\]\]\]".

use vstd::prelude::*;

use crate::idmap::{Idmap, IdmapErr, Mapping, ParseIdmapError, idmap_text, parse_idmap};
use crate::text::{has_char, push_char, push_str, rsplit_once, split_terminator, str_eq, str_rsplit_once, str_split, str_strip_prefix, strip_prefix};

verus! {

/// An exploded container on the file system.
#[derive(Debug, Clone, PartialEq, Eq)]
pub struct Rootfs {
    /// Path to exploded container directory.
    pub path: String,
    /// Mount the `path` as storage using the overlay file system.
    pub overlay: bool,
    /// Create an idmapped mount to the target user namespace in the container.
    pub idmap: Option<Idmap>,
}

/// [`Rootfs`] with its path as a character sequence.
pub ghost struct RootfsView {
    pub path: Seq<char>,
    pub overlay: bool,
    pub idmap: Option<(Seq<Mapping>, Seq<Mapping>)>,
}

impl View for Rootfs {
    type V = RootfsView;

    open spec fn view(&self) -> RootfsView {
        RootfsView {
            path: self.path@,
            overlay: self.overlay,
            idmap: match self.idmap {
                Some(m) => Some(m@),
                None => None,
            },
        }
    }
}

/// Error returned when parsing [`Rootfs`].
#[derive(Debug, Clone, PartialEq, Eq)]
pub enum ParseRootfsError {
    /// Unknown rootfs option given.
    UnknownOption(String),
    /// Error while parsing the idmap option.
    Idmap(ParseIdmapError),
}

/// [`ParseRootfsError`] with its text as a character sequence.
pub ghost enum RootfsErr {
    UnknownOption(Seq<char>),
    Idmap(IdmapErr),
}

impl View for ParseRootfsError {
    type V = RootfsErr;

    open spec fn view(&self) -> RootfsErr {
        match self {
            ParseRootfsError::UnknownOption(o) => RootfsErr::UnknownOption(o@),
            ParseRootfsError::Idmap(e) => RootfsErr::Idmap(e@),
        }
    }
}

/// The overlay flag and idmap after applying the options `opts` in order.
pub open spec fn rootfs_options(opts: Seq<Seq<char>>) -> Result<
    (bool, Option<(Seq<Mapping>, Seq<Mapping>)>),
    RootfsErr,
>
    decreases opts.len(),
{
    if opts.len() == 0 {
        Ok((false, None))
    } else {
        match rootfs_options(opts.drop_last()) {
            Err(e) => Err(e),
            Ok((overlay, idmap)) => {
                let o = opts.last();
                if o == seq!['O'] {
                    Ok((true, idmap))
                } else {
                    match strip_prefix(o, "idmap"@) {
                        None => Err(RootfsErr::UnknownOption(o)),
                        Some(rest) => match strip_prefix(rest, seq!['=']) {
                            None => Ok(
                                (overlay, Some((Seq::<Mapping>::empty(), Seq::<Mapping>::empty()))),
                            ),
                            Some(text) => match parse_idmap(text) {
                                Err(e) => Err(RootfsErr::Idmap(e)),
                                Ok(m) => Ok((overlay, Some(m))),
                            },
                        },
                    }
                }
            },
        }
    }
}

/// What parsing "PATH\[:\[O\]\[,idmap\[=IDMAP\]\]\]" gives; the options follow the last ':'.
pub open spec fn parse_rootfs(s: Seq<char>) -> Result<RootfsView, RootfsErr> {
    match rsplit_once(s, ':') {
        None => Ok(RootfsView { path: s, overlay: false, idmap: None }),
        Some((path, options)) => match rootfs_options(split_terminator(options, ',')) {
            Err(e) => Err(e),
            Ok((overlay, idmap)) => Ok(RootfsView { path, overlay, idmap }),
        },
    }
}

/// The text of a rootfs.
pub open spec fn rootfs_text(r: RootfsView) -> Seq<char> {
    r.path + (if r.overlay || r.idmap is Some {
        seq![':']
    } else {
        Seq::<char>::empty()
    }) + (if r.overlay {
        seq!['O']
    } else {
        Seq::<char>::empty()
    }) + (match r.idmap {
        None => Seq::<char>::empty(),
        Some(m) => (if r.overlay {
            seq![',']
        } else {
            Seq::<char>::empty()
        }) + "idmap"@ + (if m.0.len() > 0 || m.1.len() > 0 {
            seq!['='] + idmap_text(m.0, m.1)
        } else {
            Seq::<char>::empty()
        }),
    })
}

proof fn lemma_rootfs_options_err(opts: Seq<Seq<char>>, i: int, e: RootfsErr)
    requires
        0 <= i < opts.len(),
        rootfs_options(opts.subrange(0, i + 1)) == Err::<
            (bool, Option<(Seq<Mapping>, Seq<Mapping>)>),
            RootfsErr,
        >(e),
    ensures
        rootfs_options(opts) == Err::<(bool, Option<(Seq<Mapping>, Seq<Mapping>)>), RootfsErr>(e),
    decreases opts.len() - i,
{
    if i + 1 < opts.len() {
        assert(opts.subrange(0, i + 2).drop_last() =~= opts.subrange(0, i + 1));
        lemma_rootfs_options_err(opts, i + 1, e);
    } else {
        assert(opts.subrange(0, i + 1) =~= opts);
    }
}

impl Rootfs {
    /// Parse a [`Rootfs`] from "PATH\[:\[O\]\[,idmap\[=IDMAP\]\]\]".
    pub fn parse(s: &str) -> (r: Result<Rootfs, ParseRootfsError>)
        ensures
            match r {
                Ok(x) => parse_rootfs(s@) == Ok::<RootfsView, RootfsErr>(x@),
                Err(e) => parse_rootfs(s@) == Err::<RootfsView, RootfsErr>(e@),
            },
    {
        match str_rsplit_once(s, ':') {
            None => Ok(Rootfs { path: s.to_owned(), overlay: false, idmap: None }),
            Some((path, options)) => {
                let pieces = str_split(options.as_str(), ',');
                let ghost all = split_terminator(options@, ',');
                let n = if pieces.len() > 0 && pieces[pieces.len() - 1].as_str().is_empty() {
                    pieces.len() - 1
                } else {
                    pieces.len()
                };
                proof {
                    crate::text::lemma_split_props(options@, ',');
                    assert(all =~= pieces.deep_view().subrange(0, n as int));
                }
                let mut overlay = false;
                let mut idmap: Option<Idmap> = None;
                let mut i: usize = 0;
                while i < n
                    invariant
                        i <= n <= pieces@.len(),
                        all == pieces.deep_view().subrange(0, n as int),
                        all == split_terminator(options@, ','),
                        rsplit_once(s@, ':') == Some((path@, options@)),
                        rootfs_options(all.subrange(0, i as int)) == Ok::<
                            (bool, Option<(Seq<Mapping>, Seq<Mapping>)>),
                            RootfsErr,
                        >(
                            (
                                overlay,
                                match idmap {
                                    Some(m) => Some(m@),
                                    None => None,
                                },
                            ),
                        ),
                    decreases n - i,
                {
                    let ghost pre = all.subrange(0, i + 1);
                    assert(pre.drop_last() =~= all.subrange(0, i as int));
                    assert(pre.last() == pieces[i as int]@);
                    let o = pieces[i].as_str();
                    proof {
                        reveal_strlit("O");
                        reveal_strlit("=");
                        assert("O"@ =~= seq!['O']);
                        assert("="@ =~= seq!['=']);
                    }
                    if str_eq(o, "O") {
                        overlay = true;
                    } else {
                        match str_strip_prefix(o, "idmap") {
                            None => {
                                let e = ParseRootfsError::UnknownOption(o.to_owned());
                                proof {
                                    lemma_rootfs_options_err(all, i as int, e@);
                                }
                                return Err(e);
                            },
                            Some(rest) => match str_strip_prefix(rest.as_str(), "=") {
                                None => {
                                    idmap = Some(Idmap::new());
                                },
                                Some(text) => match Idmap::parse(text.as_str()) {
                                    Ok(m) => {
                                        idmap = Some(m);
                                    },
                                    Err(e) => {
                                        let e = ParseRootfsError::Idmap(e);
                                        proof {
                                            lemma_rootfs_options_err(all, i as int, e@);
                                        }
                                        return Err(e);
                                    },
                                },
                            },
                        }
                    }
                    i = i + 1;
                }
                assert(all.subrange(0, n as int) =~= all);
                Ok(Rootfs { path, overlay, idmap })
            },
        }
    }

    /// The text of this rootfs: "PATH\[:\[O\]\[,idmap\[=IDMAP\]\]\]".
    pub fn to_string(&self) -> (s: String)
        ensures
            s@ == rootfs_text(self@),
    {
        let mut s = String::new();
        push_str(&mut s, self.path.as_str());
        if self.overlay || self.idmap.is_some() {
            push_char(&mut s, ':');
        }
        if self.overlay {
            push_char(&mut s, 'O');
        }
        match &self.idmap {
            None => {},
            Some(m) => {
                if self.overlay {
                    push_char(&mut s, ',');
                }
                push_str(&mut s, "idmap");
                if !m.is_empty() {
                    push_char(&mut s, '=');
                    m.write_to(&mut s);
                }
            },
        }
        assert(s@ =~= rootfs_text(self@));
        s
    }
}

/// The idmap option text parses back to the idmap.
proof fn lemma_idmap_option(overlay: bool, m: (Seq<Mapping>, Seq<Mapping>))
    ensures
        ({
            let o = "idmap"@ + (if m.0.len() > 0 || m.1.len() > 0 {
                seq!['='] + idmap_text(m.0, m.1)
            } else {
                Seq::<char>::empty()
            });
            &&& o != seq!['O']
            &&& !has_char(o, ',')
            &&& rootfs_options(seq![o]) == Ok::<
                (bool, Option<(Seq<Mapping>, Seq<Mapping>)>),
                RootfsErr,
            >((false, Some(m)))
            &&& rootfs_options(seq![seq!['O'], o]) == Ok::<
                (bool, Option<(Seq<Mapping>, Seq<Mapping>)>),
                RootfsErr,
            >((true, Some(m)))
        }),
{
    reveal_strlit("idmap");
    let nonempty = m.0.len() > 0 || m.1.len() > 0;
    let rest = if nonempty {
        seq!['='] + idmap_text(m.0, m.1)
    } else {
        Seq::<char>::empty()
    };
    let o = "idmap"@ + rest;
    crate::text::lemma_strip_prefix_concat("idmap"@, rest);
    assert(o.len() > 1);
    assert(o != seq!['O']) by {
        assert(o.len() != seq!['O'].len());
    }
    crate::idmap::lemma_idmap_text_free(m.0, m.1, ',');
    assert(!has_char(o, ',')) by {
        if has_char(o, ',') {
            let i = choose|i: int| 0 <= i < o.len() && o[i] == ',';
            if i >= 6 {
                assert(o[i] == idmap_text(m.0, m.1)[i - 6]);
            }
        }
    }
    if nonempty {
        crate::text::lemma_strip_prefix_concat(seq!['='], idmap_text(m.0, m.1));
        crate::idmap::idmap_round_trip(m.0, m.1);
        assert(strip_prefix(rest, seq!['=']) == Some(idmap_text(m.0, m.1)));
    } else {
        assert(m.0 =~= Seq::<Mapping>::empty());
        assert(m.1 =~= Seq::<Mapping>::empty());
        assert(m == (Seq::<Mapping>::empty(), Seq::<Mapping>::empty()));
        assert(strip_prefix(rest, seq!['=']) is None);
    }
    assert(strip_prefix(o, "idmap"@) == Some(rest));
    assert(seq![o].last() == o);
    assert(seq![seq!['O'], o].last() == o);
    assert(seq![o].drop_last() =~= Seq::<Seq<char>>::empty());
    assert(seq![seq!['O'], o].drop_last() =~= seq![seq!['O']]);
    assert(seq![seq!['O']].drop_last() =~= Seq::<Seq<char>>::empty());
    assert(rootfs_options(Seq::<Seq<char>>::empty()) == Ok::<
        (bool, Option<(Seq<Mapping>, Seq<Mapping>)>),
        RootfsErr,
    >((false, None)));
    assert(rootfs_options(seq![o]) == Ok::<
        (bool, Option<(Seq<Mapping>, Seq<Mapping>)>),
        RootfsErr,
    >((false, Some(m))));
    assert(rootfs_options(seq![seq!['O']]) == Ok::<
        (bool, Option<(Seq<Mapping>, Seq<Mapping>)>),
        RootfsErr,
    >((true, None)));
    assert(rootfs_options(seq![seq!['O'], o]) == Ok::<
        (bool, Option<(Seq<Mapping>, Seq<Mapping>)>),
        RootfsErr,
    >((true, Some(m))));
}

/// Parsing the text of a rootfs gives it back, when its path holds no ':' or it has options
/// (which follow the last ':').
pub proof fn rootfs_round_trip(r: RootfsView)
    requires
        !r.overlay && r.idmap is None ==> !has_char(r.path, ':'),
    ensures
        parse_rootfs(rootfs_text(r)) == Ok::<RootfsView, RootfsErr>(r),
{
    let t = rootfs_text(r);
    if !r.overlay && r.idmap is None {
        assert(t =~= r.path);
        if exists|i: int| crate::text::is_last(t, ':', i) {
            let i = choose|i: int| crate::text::is_last(t, ':', i);
            assert(t[i] == ':');
            assert(r.path[i] == ':');
        }
        assert(rsplit_once(t, ':') is None);
    } else {
        let pieces: Seq<Seq<char>> = match r.idmap {
            None => seq![seq!['O']],
            Some(m) => {
                let o = "idmap"@ + (if m.0.len() > 0 || m.1.len() > 0 {
                    seq!['='] + idmap_text(m.0, m.1)
                } else {
                    Seq::<char>::empty()
                });
                if r.overlay {
                    seq![seq!['O'], o]
                } else {
                    seq![o]
                }
            },
        };
        match r.idmap {
            None => {
                assert(seq![seq!['O']].drop_last() =~= Seq::<Seq<char>>::empty());
                assert(rootfs_options(Seq::<Seq<char>>::empty()) == Ok::<
                    (bool, Option<(Seq<Mapping>, Seq<Mapping>)>),
                    RootfsErr,
                >((false, None)));
                assert(rootfs_options(pieces) == Ok::<
                    (bool, Option<(Seq<Mapping>, Seq<Mapping>)>),
                    RootfsErr,
                >((r.overlay, r.idmap)));
            },
            Some(m) => {
                lemma_idmap_option(r.overlay, m);
                assert(rootfs_options(pieces) == Ok::<
                    (bool, Option<(Seq<Mapping>, Seq<Mapping>)>),
                    RootfsErr,
                >((r.overlay, r.idmap)));
            },
        }
        let opts = crate::text::join(pieces, seq![',']);
        assert(t =~= r.path + seq![':'] + opts) by {
            match r.idmap {
                None => {
                    assert(opts == seq!['O']);
                },
                Some(m) => {
                    let o = "idmap"@ + (if m.0.len() > 0 || m.1.len() > 0 {
                        seq!['='] + idmap_text(m.0, m.1)
                    } else {
                        Seq::<char>::empty()
                    });
                    if r.overlay {
                        assert(pieces.drop_last() =~= seq![seq!['O']]);
                        assert(crate::text::join(seq![seq!['O']], seq![',']) == seq!['O']);
                        assert(opts == seq!['O'] + seq![','] + o);
                    } else {
                        assert(opts == o);
                    }
                },
            }
        }
        assert forall|k: int| 0 <= k < pieces.len() implies !has_char(#[trigger] pieces[k], ',')
            && !has_char(pieces[k], ':') by {
            match r.idmap {
                None => {},
                Some(m) => {
                    crate::idmap::lemma_idmap_text_free(m.0, m.1, ':');
                    reveal_strlit("idmap");
                    let o = "idmap"@ + (if m.0.len() > 0 || m.1.len() > 0 {
                        seq!['='] + idmap_text(m.0, m.1)
                    } else {
                        Seq::<char>::empty()
                    });
                    if has_char(o, ':') {
                        let i = choose|i: int| 0 <= i < o.len() && o[i] == ':';
                        if i >= 6 {
                            assert(o[i] == idmap_text(m.0, m.1)[i - 6]);
                        }
                    }
                },
            }
        }
        assert(!has_char(opts, ':')) by {
            crate::idmap::lemma_join_free_pub(pieces, seq![','], ':');
        }
        crate::text::lemma_rsplit_once_concat(r.path, opts, ':');
        crate::text::lemma_split_join(pieces, ',');
        assert(pieces.last().len() > 0) by {
            match r.idmap {
                None => {},
                Some(m) => {
                    reveal_strlit("idmap");
                },
            }
        }
        assert(split_terminator(opts, ',') == pieces);
        assert(rsplit_once(t, ':') == Some((r.path, opts)));
        assert(rootfs_options(pieces) == Ok::<
            (bool, Option<(Seq<Mapping>, Seq<Mapping>)>),
            RootfsErr,
        >((r.overlay, r.idmap)));
    }
}

impl core::str::FromStr for Rootfs {
    type Err = ParseRootfsError;

    fn from_str(s: &str) -> (r: Result<Rootfs, ParseRootfsError>)
        ensures
            match r {
                Ok(x) => parse_rootfs(s@) == Ok::<RootfsView, RootfsErr>(x@),
                Err(e) => parse_rootfs(s@) == Err::<RootfsView, RootfsErr>(e@),
            },
    {
        Rootfs::parse(s)
    }
}

} // verus!
