//! A secret for `podman build --secret`: "id=ID,src=PATH".

use vstd::prelude::*;

use crate::text::opt_seq;

use crate::text::{has_char, lemma_split_join, lemma_split_once_concat, push_str, split, split_once, str_eq, str_split, str_split_once};

verus! {

/// A secret to expose to a build: its id and the path of its source.
#[derive(Debug, Clone, PartialEq, Eq)]
pub struct Secret {
    pub id: String,
    pub source: String,
}

/// Error returned when parsing a [`Secret`].
#[derive(Debug, Clone, PartialEq, Eq)]
pub enum ParseSecretError {
    /// An option has no '='.
    MissingEquals,
    /// `id` given twice.
    DuplicateId,
    /// `src` given twice.
    DuplicateSource,
    /// An option other than `id` and `src`.
    UnknownOption(String),
    /// No `id` given.
    MissingId,
    /// No `src` given.
    MissingSource,
}

/// [`ParseSecretError`] with its text as a character sequence.
pub ghost enum SecretErr {
    MissingEquals,
    DuplicateId,
    DuplicateSource,
    UnknownOption(Seq<char>),
    MissingId,
    MissingSource,
}

impl View for ParseSecretError {
    type V = SecretErr;

    open spec fn view(&self) -> SecretErr {
        match self {
            ParseSecretError::MissingEquals => SecretErr::MissingEquals,
            ParseSecretError::DuplicateId => SecretErr::DuplicateId,
            ParseSecretError::DuplicateSource => SecretErr::DuplicateSource,
            ParseSecretError::UnknownOption(o) => SecretErr::UnknownOption(o@),
            ParseSecretError::MissingId => SecretErr::MissingId,
            ParseSecretError::MissingSource => SecretErr::MissingSource,
        }
    }
}

/// The id and source found so far.
pub type SecretParts = (Option<Seq<char>>, Option<Seq<char>>);

/// Apply one option "key=value".
pub open spec fn secret_step(p: SecretParts, option: Seq<char>) -> Result<SecretParts, SecretErr> {
    match split_once(option, '=') {
        None => Err(SecretErr::MissingEquals),
        Some((key, value)) => if key == "id"@ {
            if p.0 is Some {
                Err(SecretErr::DuplicateId)
            } else {
                Ok((Some(value), p.1))
            }
        } else if key == "src"@ {
            if p.1 is Some {
                Err(SecretErr::DuplicateSource)
            } else {
                Ok((p.0, Some(value)))
            }
        } else {
            Err(SecretErr::UnknownOption(key))
        },
    }
}

/// Apply the options in order.
pub open spec fn fold_secret(options: Seq<Seq<char>>) -> Result<SecretParts, SecretErr>
    decreases options.len(),
{
    if options.len() == 0 {
        Ok((None, None))
    } else {
        match fold_secret(options.drop_last()) {
            Ok(p) => secret_step(p, options.last()),
            Err(e) => Err(e),
        }
    }
}

/// What parsing a secret gives: its id and source, in either order, each exactly once.
pub open spec fn parse_secret(s: Seq<char>) -> Result<(Seq<char>, Seq<char>), SecretErr> {
    match fold_secret(split(s, ',')) {
        Err(e) => Err(e),
        Ok((id, source)) => match id {
            None => Err(SecretErr::MissingId),
            Some(i) => match source {
                None => Err(SecretErr::MissingSource),
                Some(src) => Ok((i, src)),
            },
        },
    }
}

/// The text of a secret: "id=ID,src=PATH".
pub open spec fn secret_text(id: Seq<char>, source: Seq<char>) -> Seq<char> {
    "id="@ + id + ",src="@ + source
}

/// An error at option `i` is the error of all the options.
proof fn lemma_fold_secret_err(options: Seq<Seq<char>>, i: int, e: SecretErr)
    requires
        0 <= i < options.len(),
        fold_secret(options.subrange(0, i + 1)) == Err::<SecretParts, SecretErr>(e),
    ensures
        fold_secret(options) == Err::<SecretParts, SecretErr>(e),
    decreases options.len() - i,
{
    if i + 1 < options.len() {
        assert(options.subrange(0, i + 2).drop_last() =~= options.subrange(0, i + 1));
        lemma_fold_secret_err(options, i + 1, e);
    } else {
        assert(options.subrange(0, i + 1) =~= options);
    }
}

impl Secret {
    /// Parse a secret "id=ID,src=PATH", the options in either order.
    pub fn parse(s: &str) -> (r: Result<Secret, ParseSecretError>)
        ensures
            match r {
                Ok(x) => parse_secret(s@) == Ok::<(Seq<char>, Seq<char>), SecretErr>(
                    (x.id@, x.source@),
                ),
                Err(e) => parse_secret(s@) == Err::<(Seq<char>, Seq<char>), SecretErr>(e@),
            },
    {
        let pieces = str_split(s, ',');
        let ghost all = split(s@, ',');
        let mut id: Option<String> = None;
        let mut source: Option<String> = None;
        let mut i: usize = 0;
        while i < pieces.len()
            invariant
                i <= pieces@.len(),
                all == pieces.deep_view(),
                all == split(s@, ','),
                fold_secret(all.subrange(0, i as int)) == Ok::<SecretParts, SecretErr>(
                    (opt_seq(id), opt_seq(source)),
                ),
            decreases pieces@.len() - i,
        {
            let ghost pre = all.subrange(0, i + 1);
            assert(pre.drop_last() =~= all.subrange(0, i as int));
            assert(pre.last() == pieces[i as int]@);
            let err = match str_split_once(pieces[i].as_str(), '=') {
                None => Some(ParseSecretError::MissingEquals),
                Some((key, value)) => {
                    if str_eq(key.as_str(), "id") {
                        if id.is_some() {
                            Some(ParseSecretError::DuplicateId)
                        } else {
                            id = Some(value);
                            None
                        }
                    } else if str_eq(key.as_str(), "src") {
                        if source.is_some() {
                            Some(ParseSecretError::DuplicateSource)
                        } else {
                            source = Some(value);
                            None
                        }
                    } else {
                        Some(ParseSecretError::UnknownOption(key))
                    }
                },
            };
            if let Some(e) = err {
                proof {
                    lemma_fold_secret_err(all, i as int, e@);
                }
                return Err(e);
            }
            i = i + 1;
        }
        assert(all.subrange(0, pieces@.len() as int) =~= all);
        match id {
            None => Err(ParseSecretError::MissingId),
            Some(id) => match source {
                None => Err(ParseSecretError::MissingSource),
                Some(source) => Ok(Secret { id, source }),
            },
        }
    }

    /// The text of this secret: "id=ID,src=PATH".
    pub fn to_string(&self) -> (r: String)
        ensures
            r@ == secret_text(self.id@, self.source@),
    {
        let mut s = String::new();
        push_str(&mut s, "id=");
        push_str(&mut s, self.id.as_str());
        push_str(&mut s, ",src=");
        push_str(&mut s, self.source.as_str());
        assert(s@ =~= secret_text(self.id@, self.source@));
        s
    }
}

/// A secret whose id and source hold no ',' parses back from its text.
pub proof fn secret_round_trip(id: Seq<char>, source: Seq<char>)
    requires
        !has_char(id, ','),
        !has_char(source, ','),
    ensures
        parse_secret(secret_text(id, source)) == Ok::<(Seq<char>, Seq<char>), SecretErr>(
            (id, source),
        ),
{
    reveal_strlit("id=");
    reveal_strlit(",src=");
    reveal_strlit("src=");
    reveal_strlit("id");
    reveal_strlit("src");
    let a = "id="@ + id;
    let b = "src="@ + source;
    assert(secret_text(id, source) =~= a + seq![','] + b);
    assert(!has_char(a, ',')) by {
        if has_char(a, ',') {
            let j = choose|j: int| 0 <= j < a.len() && a[j] == ',';
            assert(id[j - 3] == ',');
        }
    }
    assert(!has_char(b, ',')) by {
        if has_char(b, ',') {
            let j = choose|j: int| 0 <= j < b.len() && b[j] == ',';
            assert(source[j - 4] == ',');
        }
    }
    let pieces = seq![a, b];
    assert(crate::text::join(pieces, seq![',']) =~= a + seq![','] + b) by {
        assert(pieces.drop_last() =~= seq![a]);
        assert(crate::text::join(seq![a], seq![',']) == a);
    }
    assert forall|k: int| 0 <= k < pieces.len() implies !has_char(#[trigger] pieces[k], ',') by {
        if k == 0 {
            assert(pieces[k] == a);
        } else {
            assert(pieces[k] == b);
        }
    }
    lemma_split_join(pieces, ',');
    assert(split(secret_text(id, source), ',') == pieces);
    lemma_split_once_concat("id"@, id, '=');
    assert("id"@ + seq!['='] + id =~= a);
    lemma_split_once_concat("src"@, source, '=');
    assert("src"@ + seq!['='] + source =~= b);
    assert(!has_char("id"@, '=')) by {
        if has_char("id"@, '=') {
            let j = choose|j: int| 0 <= j < 2 && "id"@[j] == '=';
        }
    }
    assert(!has_char("src"@, '=')) by {
        if has_char("src"@, '=') {
            let j = choose|j: int| 0 <= j < 3 && "src"@[j] == '=';
        }
    }
    assert(pieces.drop_last() =~= seq![a]);
    assert(seq![a].drop_last() =~= Seq::<Seq<char>>::empty());
    assert("src"@ != "id"@);
    assert(fold_secret(Seq::<Seq<char>>::empty()) == Ok::<SecretParts, SecretErr>((None, None)));
    assert(seq![a].last() == a);
    assert(fold_secret(seq![a]) == secret_step((None, None), a));
    assert(secret_step((None, None), a) == Ok::<SecretParts, SecretErr>((Some(id), None)));
    assert(fold_secret(pieces) == secret_step((Some(id), None), b));
    assert(secret_step((Some(id), None), b) == Ok::<SecretParts, SecretErr>(
        (Some(id), Some(source)),
    ));
}

} // verus!
