//! Character-sequence helpers shared by the parsers and formatters of this crate.
//!
//! Every helper states its result over `Seq<char>`, the view of `String` and `&str`.

use vstd::prelude::*;

verus! {

/// Optional text as a character sequence.
pub open spec fn opt_seq(o: Option<String>) -> Option<Seq<char>> {
    match o {
        Some(s) => Some(s@),
        None => None,
    }
}

/// `i` is the index of the first occurrence of `c` in `s`.
pub open spec fn is_first(s: Seq<char>, c: char, i: int) -> bool {
    &&& 0 <= i < s.len()
    &&& s[i] == c
    &&& forall|j: int| 0 <= j < i ==> s[j] != c
}

/// `i` is the index of the last occurrence of `c` in `s`.
pub open spec fn is_last(s: Seq<char>, c: char, i: int) -> bool {
    &&& 0 <= i < s.len()
    &&& s[i] == c
    &&& forall|j: int| i < j < s.len() ==> s[j] != c
}

/// Index of the first `c` in `s`, or `-1`.
pub open spec fn find_first(s: Seq<char>, c: char) -> int {
    if exists|i: int| is_first(s, c, i) {
        choose|i: int| is_first(s, c, i)
    } else {
        -1
    }
}

/// Index of the last `c` in `s`, or `-1`.
pub open spec fn find_last(s: Seq<char>, c: char) -> int {
    if exists|i: int| is_last(s, c, i) {
        choose|i: int| is_last(s, c, i)
    } else {
        -1
    }
}

/// `str::split_once` with a `char` delimiter.
pub open spec fn split_once(s: Seq<char>, c: char) -> Option<(Seq<char>, Seq<char>)> {
    let i = find_first(s, c);
    if i < 0 {
        None
    } else {
        Some((s.subrange(0, i), s.subrange(i + 1, s.len() as int)))
    }
}

/// `str::rsplit_once` with a `char` delimiter.
pub open spec fn rsplit_once(s: Seq<char>, c: char) -> Option<(Seq<char>, Seq<char>)> {
    let i = find_last(s, c);
    if i < 0 {
        None
    } else {
        Some((s.subrange(0, i), s.subrange(i + 1, s.len() as int)))
    }
}

/// `str::strip_prefix`.
pub open spec fn strip_prefix(s: Seq<char>, p: Seq<char>) -> Option<Seq<char>> {
    if p.is_prefix_of(s) {
        Some(s.subrange(p.len() as int, s.len() as int))
    } else {
        None
    }
}

/// `str::strip_suffix` with a single `char`.
pub open spec fn strip_suffix_char(s: Seq<char>, c: char) -> Option<Seq<char>> {
    if s.len() > 0 && s.last() == c {
        Some(s.drop_last())
    } else {
        None
    }
}

/// `str::split` with a `char` delimiter: the pieces between the delimiters, in order.
pub open spec fn split(s: Seq<char>, c: char) -> Seq<Seq<char>>
    decreases s.len(),
{
    if s.len() == 0 {
        seq![Seq::<char>::empty()]
    } else {
        let init = split(s.drop_last(), c);
        if s.last() == c {
            init.push(Seq::<char>::empty())
        } else {
            init.update(init.len() - 1, init.last().push(s.last()))
        }
    }
}

/// `str::split_terminator` with a `char` delimiter: like [`split`], without a trailing empty piece.
pub open spec fn split_terminator(s: Seq<char>, c: char) -> Seq<Seq<char>> {
    let pieces = split(s, c);
    if pieces.last().len() == 0 {
        pieces.drop_last()
    } else {
        pieces
    }
}

/// Join `pieces`, putting `sep` between each two.
pub open spec fn join(pieces: Seq<Seq<char>>, sep: Seq<char>) -> Seq<char>
    decreases pieces.len(),
{
    if pieces.len() == 0 {
        Seq::<char>::empty()
    } else if pieces.len() == 1 {
        pieces[0]
    } else {
        join(pieces.drop_last(), sep) + sep + pieces.last()
    }
}

/// Append `item` to `items` when `cond` holds.
pub open spec fn push_if(items: Seq<Seq<char>>, cond: bool, item: Seq<char>) -> Seq<Seq<char>> {
    if cond {
        items.push(item)
    } else {
        items
    }
}

/// Append `f` of the value of `o` to `items` when `o` is `Some`.
pub open spec fn push_some<A>(items: Seq<Seq<char>>, o: Option<A>, f: spec_fn(A) -> Seq<char>) -> Seq<
    Seq<char>,
> {
    match o {
        Some(a) => items.push(f(a)),
        None => items,
    }
}

/// A sequence that differs from `s` at `i` is no prefix of `s`.
pub proof fn lemma_not_prefix(p: Seq<char>, s: Seq<char>, i: int)
    requires
        0 <= i < p.len(),
        i < s.len(),
        p[i] != s[i],
    ensures
        !p.is_prefix_of(s),
{
    if p.is_prefix_of(s) {
        assert(p[i] == s.subrange(0, p.len() as int)[i]);
    }
}

/// `c` occurs in `s`.
pub open spec fn has_char(s: Seq<char>, c: char) -> bool {
    exists|i: int| 0 <= i < s.len() && s[i] == c
}

/// The pieces of a split are never empty, and each holds no delimiter.
pub proof fn lemma_split_props(s: Seq<char>, c: char)
    ensures
        split(s, c).len() >= 1,
        forall|k: int| 0 <= k < split(s, c).len() ==> !has_char(#[trigger] split(s, c)[k], c),
    decreases s.len(),
{
    if s.len() > 0 {
        lemma_split_props(s.drop_last(), c);
        let init = split(s.drop_last(), c);
        if s.last() != c {
            let last = init.last().push(s.last());
            assert forall|i: int| 0 <= i < last.len() implies last[i] != c by {
                if i < init.last().len() {
                    assert(!has_char(init[init.len() - 1], c));
                    assert(last[i] == init.last()[i]);
                }
            }
        }
    }
}

/// Splitting a joined list of delimiter-free pieces gives the pieces back.
pub proof fn lemma_split_join(pieces: Seq<Seq<char>>, c: char)
    requires
        pieces.len() >= 1,
        forall|k: int| 0 <= k < pieces.len() ==> !has_char(#[trigger] pieces[k], c),
    ensures
        split(join(pieces, seq![c]), c) == pieces,
    decreases pieces.len(),
{
    if pieces.len() == 1 {
        lemma_split_no_delim(pieces[0], c);
    } else {
        let init = pieces.drop_last();
        assert forall|k: int| 0 <= k < init.len() implies !has_char(#[trigger] init[k], c) by {
            assert(init[k] == pieces[k]);
        }
        lemma_split_join(init, c);
        let j = join(init, seq![c]);
        lemma_split_append_delim(j, c);
        lemma_split_extend(j.push(c), pieces.last(), c);
        assert(j.push(c) + pieces.last() =~= join(pieces, seq![c]));
        assert(init.push(Seq::<char>::empty()).update(init.len() as int, pieces.last())
            =~= pieces);
    }
}

/// A delimiter-free string splits into itself.
pub proof fn lemma_split_no_delim(s: Seq<char>, c: char)
    requires
        !has_char(s, c),
    ensures
        split(s, c) == seq![s],
    decreases s.len(),
{
    if s.len() > 0 {
        assert(!has_char(s.drop_last(), c)) by {
            if has_char(s.drop_last(), c) {
                let i = choose|i: int| 0 <= i < s.drop_last().len() && s.drop_last()[i] == c;
                assert(s[i] == c);
            }
        }
        lemma_split_no_delim(s.drop_last(), c);
        assert(s.last() != c) by {
            assert(s[s.len() - 1] == s.last());
        }
        assert(s.drop_last().push(s.last()) =~= s);
        let init = split(s.drop_last(), c);
        assert(init.last() == s.drop_last());
        assert(seq![s.drop_last()].update(0, s.drop_last().push(s.last())) =~= seq![s]);
    } else {
        assert(s =~= Seq::<char>::empty());
    }
}

/// Appending a delimiter adds an empty piece.
pub proof fn lemma_split_append_delim(s: Seq<char>, c: char)
    ensures
        split(s.push(c), c) == split(s, c).push(Seq::<char>::empty()),
{
    assert(s.push(c).drop_last() =~= s);
}

/// Appending delimiter-free text extends the last piece.
pub proof fn lemma_split_extend(s: Seq<char>, t: Seq<char>, c: char)
    requires
        !has_char(t, c),
    ensures
        split(s + t, c) == split(s, c).update(
            split(s, c).len() - 1,
            split(s, c).last() + t,
        ),
    decreases t.len(),
{
    lemma_split_props(s, c);
    if t.len() == 0 {
        assert(s + t =~= s);
        assert(split(s, c).last() + t =~= split(s, c).last());
        assert(split(s, c).update(split(s, c).len() - 1, split(s, c).last()) =~= split(s, c));
    } else {
        let t0 = t.drop_last();
        assert(!has_char(t0, c)) by {
            if has_char(t0, c) {
                let i = choose|i: int| 0 <= i < t0.len() && t0[i] == c;
                assert(t[i] == c);
            }
        }
        lemma_split_extend(s, t0, c);
        assert((s + t).drop_last() =~= s + t0);
        assert((s + t).last() == t.last());
        assert(t.last() != c) by {
            assert(t[t.len() - 1] == t.last());
        }
        let p = split(s, c);
        assert((p.last() + t0).push(t.last()) =~= p.last() + t);
        assert(p.update(p.len() - 1, p.last() + t0).update(p.len() - 1, (p.last() + t0).push(t.last()))
            =~= p.update(p.len() - 1, p.last() + t));
        assert((p.last() + t0).push(t.last()) =~= p.last() + t);
    }
}

/// `find_first` is either `-1` with no occurrence, or the first occurrence.
pub proof fn lemma_find_first(s: Seq<char>, c: char)
    ensures
        find_first(s, c) == -1 || is_first(s, c, find_first(s, c)),
        find_first(s, c) == -1 <==> !has_char(s, c),
{
    if has_char(s, c) {
        let k = choose|k: int| 0 <= k < s.len() && s[k] == c;
        lemma_exists_first(s, c, k);
    }
}

proof fn lemma_exists_first(s: Seq<char>, c: char, k: int)
    requires
        0 <= k < s.len(),
        s[k] == c,
    ensures
        exists|i: int| is_first(s, c, i),
    decreases k,
{
    if exists|j: int| 0 <= j < k && s[j] == c {
        let j = choose|j: int| 0 <= j < k && s[j] == c;
        lemma_exists_first(s, c, j);
    } else {
        assert(is_first(s, c, k));
    }
}

/// The first occurrence is unique.
pub proof fn lemma_find_first_is(s: Seq<char>, c: char, i: int)
    requires
        is_first(s, c, i),
    ensures
        find_first(s, c) == i,
{
    let k = find_first(s, c);
    assert(is_first(s, c, k));
    if k < i {
        assert(s[k] == c);
    } else if i < k {
        assert(s[i] == c);
    }
}

/// The last occurrence is unique.
pub proof fn lemma_find_last_is(s: Seq<char>, c: char, i: int)
    requires
        is_last(s, c, i),
    ensures
        find_last(s, c) == i,
{
    let k = find_last(s, c);
    assert(is_last(s, c, k));
    if k < i {
        assert(s[i] == c);
    } else if i < k {
        assert(s[k] == c);
    }
}

/// `split_once` on `a + [c] + b` where `a` holds no `c`.
pub proof fn lemma_split_once_concat(a: Seq<char>, b: Seq<char>, c: char)
    requires
        !has_char(a, c),
    ensures
        split_once(a + seq![c] + b, c) == Some((a, b)),
{
    let s = a + seq![c] + b;
    assert(s[a.len() as int] == c);
    assert forall|j: int| 0 <= j < a.len() implies s[j] != c by {
        assert(s[j] == a[j]);
    }
    lemma_find_first_is(s, c, a.len() as int);
    assert(s.subrange(0, a.len() as int) =~= a);
    assert(s.subrange(a.len() as int + 1, s.len() as int) =~= b);
}

/// `split_once` on a string without `c`.
pub proof fn lemma_split_once_none(a: Seq<char>, c: char)
    requires
        !has_char(a, c),
    ensures
        split_once(a, c) == None::<(Seq<char>, Seq<char>)>,
{
}

/// `rsplit_once` on `a + [c] + b` where `b` holds no `c`.
pub proof fn lemma_rsplit_once_concat(a: Seq<char>, b: Seq<char>, c: char)
    requires
        !has_char(b, c),
    ensures
        rsplit_once(a + seq![c] + b, c) == Some((a, b)),
{
    let s = a + seq![c] + b;
    assert(s[a.len() as int] == c);
    assert forall|j: int| a.len() < j < s.len() implies s[j] != c by {
        assert(s[j] == b[j - a.len() - 1]);
    }
    lemma_find_last_is(s, c, a.len() as int);
    assert(s.subrange(0, a.len() as int) =~= a);
    assert(s.subrange(a.len() as int + 1, s.len() as int) =~= b);
}

/// `strip_prefix` of a concatenation.
pub proof fn lemma_strip_prefix_concat(p: Seq<char>, b: Seq<char>)
    ensures
        strip_prefix(p + b, p) == Some(b),
{
    assert((p + b).subrange(0, p.len() as int) =~= p);
    assert((p + b).subrange(p.len() as int, (p + b).len() as int) =~= b);
}

/// Copy the characters of `s` into a `Vec`.
pub fn chars(s: &str) -> (v: Vec<char>)
    ensures
        v@ == s@,
{
    let n = s.unicode_len();
    let mut v: Vec<char> = Vec::new();
    let mut i: usize = 0;
    while i < n
        invariant
            n == s@.len(),
            i <= n,
            v@ == s@.subrange(0, i as int),
        decreases n - i,
    {
        let c = s.get_char(i);
        v.push(c);
        i = i + 1;
        assert(v@ =~= s@.subrange(0, i as int));
    }
    assert(v@ =~= s@);
    v
}

/// Append `c` to `s`.
///
/// Calls `String::push`; the contract claims that `c` is appended and nothing else changes.
#[verifier::external_body]
pub(crate) fn push_char(s: &mut String, c: char)
    ensures
        final(s)@ == old(s)@.push(c),
{
    s.push(c);
}

/// The lowercase equivalent of a string, as `str::to_lowercase` gives it: each character by the
/// Unicode lowercase mapping.
pub uninterp spec fn lowercase(s: Seq<char>) -> Seq<char>;

/// `c` is an ASCII character.
pub open spec fn is_ascii_char(c: char) -> bool {
    (c as int) < 0x80
}

/// An ASCII uppercase letter as its lowercase letter; other characters as they are.
pub open spec fn ascii_lower(c: char) -> char {
    if 'A' <= c <= 'Z' {
        ((c as int) + 0x20) as char
    } else {
        c
    }
}

/// Each ASCII uppercase letter of `s` as its lowercase letter.
pub open spec fn ascii_lowercase(s: Seq<char>) -> Seq<char> {
    s.map_values(|c: char| ascii_lower(c))
}

/// The lowercase equivalent of `s`.
///
/// Calls `str::to_lowercase`. The contract claims that the result is [`lowercase`] of the
/// argument, and that on an ASCII string it maps `A`..`Z` to `a`..`z` and leaves every other
/// character as it is (the Unicode lowercase mapping of the ASCII characters); it says nothing
/// of the mapping of other characters.
#[verifier::external_body]
pub(crate) fn to_lowercase(s: &str) -> (r: String)
    ensures
        r@ == lowercase(s@),
        (forall|i: int| 0 <= i < s@.len() ==> is_ascii_char(#[trigger] s@[i])) ==> r@
            == ascii_lowercase(s@),
{
    s.to_lowercase()
}

/// Append `t` to `s`.
pub fn push_str(s: &mut String, t: &str)
    ensures
        final(s)@ == old(s)@ + t@,
{
    s.append(t);
}

/// Append `item` to `items`.
pub fn push_string(items: &mut Vec<String>, item: String)
    ensures
        final(items).deep_view() == old(items).deep_view().push(item@),
{
    let ghost before = items.deep_view();
    items.push(item);
    assert(items.deep_view() =~= before.push(item@));
}

/// The strings of `items` joined with `sep` between each two.
pub fn join_with(items: &Vec<String>, sep: char) -> (r: String)
    ensures
        r@ == join(items.deep_view(), seq![sep]),
{
    let ghost all = items.deep_view();
    let mut s = String::new();
    let mut i: usize = 0;
    while i < items.len()
        invariant
            i <= items@.len(),
            all == items.deep_view(),
            s@ == join(all.subrange(0, i as int), seq![sep]),
        decreases items@.len() - i,
    {
        let ghost pre = all.subrange(0, i + 1);
        assert(pre.drop_last() =~= all.subrange(0, i as int));
        if i > 0 {
            push_char(&mut s, sep);
        } else {
            assert(pre =~= seq![items[0]@]);
        }
        push_str(&mut s, items[i].as_str());
        i = i + 1;
        assert(s@ =~= join(all.subrange(0, i as int), seq![sep]));
    }
    assert(all.subrange(0, items@.len() as int) =~= all);
    s
}

/// A `String` holding `v[lo..hi]`.
pub fn substring(v: &Vec<char>, lo: usize, hi: usize) -> (s: String)
    requires
        lo <= hi <= v@.len(),
    ensures
        s@ == v@.subrange(lo as int, hi as int),
{
    let mut s = String::new();
    let mut i = lo;
    while i < hi
        invariant
            lo <= i <= hi <= v@.len(),
            s@ == v@.subrange(lo as int, i as int),
        decreases hi - i,
    {
        push_char(&mut s, v[i]);
        i = i + 1;
        assert(s@ =~= v@.subrange(lo as int, i as int));
    }
    s
}

/// A `String` holding all of `v`.
pub fn string_of(v: &Vec<char>) -> (s: String)
    ensures
        s@ == v@,
{
    let s = substring(v, 0, v.len());
    assert(v@.subrange(0, v@.len() as int) =~= v@);
    s
}

/// Index of the first `c` in `v[lo..hi]`, relative to `v`.
pub fn find_in(v: &Vec<char>, lo: usize, hi: usize, c: char) -> (r: Option<usize>)
    requires
        lo <= hi <= v@.len(),
    ensures
        match r {
            Some(i) => lo <= i < hi && is_first(v@.subrange(lo as int, hi as int), c, i - lo),
            None => !has_char(v@.subrange(lo as int, hi as int), c),
        },
{
    let mut i = lo;
    while i < hi
        invariant
            lo <= i <= hi <= v@.len(),
            forall|j: int| lo <= j < i ==> v@[j] != c,
        decreases hi - i,
    {
        if v[i] == c {
            return Some(i);
        }
        i = i + 1;
    }
    None
}

/// Index of the last `c` in `v[lo..hi]`, relative to `v`.
pub fn rfind_in(v: &Vec<char>, lo: usize, hi: usize, c: char) -> (r: Option<usize>)
    requires
        lo <= hi <= v@.len(),
    ensures
        match r {
            Some(i) => lo <= i < hi && is_last(v@.subrange(lo as int, hi as int), c, i - lo),
            None => !has_char(v@.subrange(lo as int, hi as int), c),
        },
{
    let mut i = hi;
    while i > lo
        invariant
            lo <= i <= hi <= v@.len(),
            forall|j: int| i <= j < hi ==> v@[j] != c,
        decreases i - lo,
    {
        if v[i - 1] == c {
            return Some(i - 1);
        }
        i = i - 1;
    }
    None
}

/// `v[lo..hi]` starts with `p`.
pub fn starts_with_at(v: &Vec<char>, lo: usize, hi: usize, p: &str) -> (b: bool)
    requires
        lo <= hi <= v@.len(),
    ensures
        b == p@.is_prefix_of(v@.subrange(lo as int, hi as int)),
{
    let n = p.unicode_len();
    if n > hi - lo {
        return false;
    }
    let mut i: usize = 0;
    while i < n
        invariant
            n == p@.len(),
            n <= hi - lo,
            lo <= hi <= v@.len(),
            i <= n,
            forall|j: int| 0 <= j < i ==> p@[j] == v@[lo + j],
        decreases n - i,
    {
        if p.get_char(i) != v[lo + i] {
            assert(p@[i as int] != v@.subrange(lo as int, hi as int)[i as int]);
            return false;
        }
        i = i + 1;
    }
    assert(p@ =~= v@.subrange(lo as int, hi as int).subrange(0, n as int));
    true
}

/// `v[lo..hi]` equals `p`.
pub fn equals_at(v: &Vec<char>, lo: usize, hi: usize, p: &str) -> (b: bool)
    requires
        lo <= hi <= v@.len(),
    ensures
        b == (v@.subrange(lo as int, hi as int) == p@),
{
    if p.unicode_len() != hi - lo {
        return false;
    }
    let b = starts_with_at(v, lo, hi, p);
    if b {
        assert(v@.subrange(lo as int, hi as int) =~= p@);
    }
    b
}

/// `s` equals `p`.
pub fn str_eq(s: &str, p: &str) -> (b: bool)
    ensures
        b == (s@ == p@),
{
    let v = chars(s);
    let b = equals_at(&v, 0, v.len(), p);
    assert(v@.subrange(0, v@.len() as int) =~= v@);
    b
}

/// `s` starts with `p`.
pub fn str_starts_with(s: &str, p: &str) -> (b: bool)
    ensures
        b == p@.is_prefix_of(s@),
{
    let v = chars(s);
    let b = starts_with_at(&v, 0, v.len(), p);
    assert(v@.subrange(0, v@.len() as int) =~= v@);
    b
}

/// `s` holds `c`.
pub fn str_has_char(s: &str, c: char) -> (b: bool)
    ensures
        b == has_char(s@, c),
{
    let v = chars(s);
    let r = find_in(&v, 0, v.len(), c);
    assert(v@.subrange(0, v@.len() as int) =~= v@);
    match r {
        Some(i) => {
            assert(v@[i as int] == c);
            true
        },
        None => false,
    }
}

/// `str::split_once` with a `char` delimiter.
pub fn str_split_once(s: &str, c: char) -> (r: Option<(String, String)>)
    ensures
        match r {
            Some((a, b)) => split_once(s@, c) == Some((a@, b@)),
            None => split_once(s@, c) is None,
        },
{
    let v = chars(s);
    let r = find_in(&v, 0, v.len(), c);
    assert(v@.subrange(0, v@.len() as int) =~= v@);
    match r {
        Some(i) => {
            proof {
                lemma_find_first_is(s@, c, i as int);
            }
            Some((substring(&v, 0, i), substring(&v, i + 1, v.len())))
        },
        None => {
            proof {
                lemma_find_first(s@, c);
            }
            None
        },
    }
}

/// `str::rsplit_once` with a `char` delimiter.
pub fn str_rsplit_once(s: &str, c: char) -> (r: Option<(String, String)>)
    ensures
        match r {
            Some((a, b)) => rsplit_once(s@, c) == Some((a@, b@)),
            None => rsplit_once(s@, c) is None,
        },
{
    let v = chars(s);
    let r = rfind_in(&v, 0, v.len(), c);
    assert(v@.subrange(0, v@.len() as int) =~= v@);
    match r {
        Some(i) => {
            proof {
                lemma_find_last_is(s@, c, i as int);
            }
            Some((substring(&v, 0, i), substring(&v, i + 1, v.len())))
        },
        None => {
            proof {
                if exists|i: int| is_last(s@, c, i) {
                    let i = choose|i: int| is_last(s@, c, i);
                    assert(s@[i] == c);
                }
            }
            None
        },
    }
}

/// `str::strip_prefix`.
pub fn str_strip_prefix(s: &str, p: &str) -> (r: Option<String>)
    ensures
        match r {
            Some(t) => strip_prefix(s@, p@) == Some(t@),
            None => strip_prefix(s@, p@) is None,
        },
{
    let v = chars(s);
    assert(v@.subrange(0, v@.len() as int) =~= v@);
    if starts_with_at(&v, 0, v.len(), p) {
        Some(substring(&v, p.unicode_len(), v.len()))
    } else {
        None
    }
}

/// `str::split` with a `char` delimiter.
pub fn str_split(s: &str, c: char) -> (r: Vec<String>)
    ensures
        r.deep_view() == split(s@, c),
{
    let v = chars(s);
    let mut pieces: Vec<String> = Vec::new();
    let mut cur = String::new();
    let mut i: usize = 0;
    while i < v.len()
        invariant
            i <= v@.len(),
            v@ == s@,
            pieces.deep_view().push(cur@) == split(s@.subrange(0, i as int), c),
        decreases v@.len() - i,
    {
        let ghost prev = s@.subrange(0, i as int);
        assert(s@.subrange(0, i + 1).drop_last() =~= prev);
        if v[i] == c {
            let ghost old_pieces = pieces.deep_view();
            let ghost old_cur = cur@;
            pieces.push(cur);
            cur = String::new();
            assert(pieces.deep_view() =~= old_pieces.push(old_cur));
        } else {
            let ghost old_pieces = pieces.deep_view();
            let ghost old_cur = cur@;
            push_char(&mut cur, v[i]);
            assert(s@.subrange(0, i + 1).last() == v@[i as int]);
            assert(pieces.deep_view().push(cur@) =~= old_pieces.push(old_cur).update(
                old_pieces.len() as int,
                old_cur.push(v@[i as int]),
            ));
        }
        i = i + 1;
    }
    assert(s@.subrange(0, v@.len() as int) =~= s@);
    let ghost old_pieces = pieces.deep_view();
    let ghost old_cur = cur@;
    pieces.push(cur);
    assert(pieces.deep_view() =~= old_pieces.push(old_cur));
    pieces
}

/// `a + b` holds `c` only where `a` or `b` does.
pub proof fn lemma_concat_free(a: Seq<char>, b: Seq<char>, c: char)
    requires
        !has_char(a, c),
        !has_char(b, c),
    ensures
        !has_char(a + b, c),
{
    if has_char(a + b, c) {
        let i = choose|i: int| 0 <= i < (a + b).len() && (a + b)[i] == c;
        if i < a.len() {
            assert(a[i] == c);
        } else {
            assert(b[i - a.len()] == c);
        }
    }
}

/// Sequences that differ at `i` differ.
pub proof fn lemma_ne(a: Seq<char>, b: Seq<char>, i: int)
    requires
        0 <= i < a.len(),
        i < b.len(),
        a[i] != b[i],
    ensures
        a != b,
{
}

/// A sequence holds no `c` when none of its characters is `c`.
pub proof fn lemma_free(s: Seq<char>, c: char)
    requires
        forall|i: int| 0 <= i < s.len() ==> #[trigger] s[i] != c,
    ensures
        !has_char(s, c),
{
}

/// Sequences of different lengths differ.
pub proof fn lemma_len_ne(a: Seq<char>, b: Seq<char>)
    requires
        a.len() != b.len(),
    ensures
        a != b,
{
}

/// Joining one more piece puts the separator before it, unless it is the first.
pub proof fn lemma_join_push(p: Seq<Seq<char>>, x: Seq<char>, sep: Seq<char>)
    ensures
        join(p.push(x), sep) == if p.len() == 0 {
            x
        } else {
            join(p, sep) + sep + x
        },
{
    assert(p.push(x).drop_last() =~= p);
}

/// `needle` occurs in `hay` as a run of consecutive characters.
pub open spec fn occurs_in(needle: Seq<char>, hay: Seq<char>) -> bool {
    exists|i: int|
        0 <= i && i + needle.len() <= hay.len() && #[trigger] hay.subrange(i, i + needle.len())
            == needle
}

/// `needle` occurs in `hay` at `i`.
pub proof fn lemma_occurs_at(needle: Seq<char>, hay: Seq<char>, i: int)
    requires
        0 <= i,
        i + needle.len() <= hay.len(),
        hay.subrange(i, i + needle.len()) =~= needle,
    ensures
        occurs_in(needle, hay),
{
}

/// A text occurs at the end of anything it is appended to.
pub proof fn lemma_occurs_end(x: Seq<char>, needle: Seq<char>)
    ensures
        occurs_in(needle, x + needle),
{
    lemma_occurs_at(needle, x + needle, x.len() as int);
}

/// What occurs in a text occurs in any text that begins with it.
pub proof fn lemma_occurs_prefix(needle: Seq<char>, x: Seq<char>, y: Seq<char>)
    requires
        occurs_in(needle, x),
        x.len() <= y.len(),
        y.subrange(0, x.len() as int) == x,
    ensures
        occurs_in(needle, y),
{
    let i = choose|i: int|
        0 <= i && i + needle.len() <= x.len() && #[trigger] x.subrange(i, i + needle.len())
            == needle;
    assert(y.subrange(i, i + needle.len()) =~= x.subrange(i, i + needle.len()));
    lemma_occurs_at(needle, y, i);
}

/// What occurs in a text occurs in the text with anything appended.
pub proof fn lemma_occurs_append(needle: Seq<char>, x: Seq<char>, y: Seq<char>)
    requires
        occurs_in(needle, x),
    ensures
        occurs_in(needle, x + y),
{
    assert((x + y).subrange(0, x.len() as int) =~= x);
    lemma_occurs_prefix(needle, x, x + y);
}

/// What occurs in a text occurs in the text with anything put before it.
pub proof fn lemma_occurs_shift(needle: Seq<char>, h: Seq<char>, y: Seq<char>)
    requires
        occurs_in(needle, y),
    ensures
        occurs_in(needle, h + y),
{
    let i = choose|i: int|
        0 <= i && i + needle.len() <= y.len() && #[trigger] y.subrange(i, i + needle.len())
            == needle;
    assert((h + y).subrange(h.len() + i, h.len() + i + needle.len()) =~= y.subrange(
        i,
        i + needle.len(),
    ));
    lemma_occurs_at(needle, h + y, h.len() + i);
}

/// Occurring is transitive.
pub proof fn lemma_occurs_trans(a: Seq<char>, b: Seq<char>, c: Seq<char>)
    requires
        occurs_in(a, b),
        occurs_in(b, c),
    ensures
        occurs_in(a, c),
{
    let i = choose|i: int|
        0 <= i && i + a.len() <= b.len() && #[trigger] b.subrange(i, i + a.len()) == a;
    let j = choose|j: int|
        0 <= j && j + b.len() <= c.len() && #[trigger] c.subrange(j, j + b.len()) == b;
    assert(c.subrange(j + i, j + i + a.len()) =~= b.subrange(i, i + a.len()));
    lemma_occurs_at(a, c, j + i);
}

/// A text occurs in itself.
pub proof fn lemma_occurs_self(x: Seq<char>)
    ensures
        occurs_in(x, x),
{
    lemma_occurs_at(x, x, 0);
}


/// `start` followed by the texts `f(0)`, ..., `f(k - 1)`.
pub open spec fn concat_upto(start: Seq<char>, f: spec_fn(int) -> Seq<char>, k: nat) -> Seq<char>
    decreases k,
{
    if k == 0 {
        start
    } else {
        concat_upto(start, f, (k - 1) as nat) + f(k - 1)
    }
}

/// Each of the texts that are put together occurs in the whole.
pub proof fn lemma_concat_item(start: Seq<char>, f: spec_fn(int) -> Seq<char>, k: nat, j: int)
    requires
        0 <= j < k,
    ensures
        occurs_in(f(j), concat_upto(start, f, k)),
    decreases k,
{
    let before = concat_upto(start, f, (k - 1) as nat);
    if j == k - 1 {
        lemma_occurs_end(before, f(j));
    } else {
        lemma_concat_item(start, f, (k - 1) as nat, j);
        lemma_occurs_append(f(j), before, f(k - 1));
    }
}

} // verus!
