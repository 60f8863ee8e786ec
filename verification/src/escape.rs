//! Escaping and quoting strings for shell command lines and Quadlet option values.

use vstd::prelude::*;

use crate::num::char_code;
use crate::text::{chars, has_char, join, push_char, push_str};

verus! {

/// `c` is an ASCII control character that is not ASCII whitespace
/// (tab, line feed, vertical tab, form feed and carriage return are whitespace).
pub open spec fn is_control_not_whitespace(c: char) -> bool {
    (c as int) < 0x09 || (0x0E <= (c as int) < 0x20) || (c as int) == 0x7F
}

/// `char::is_whitespace`: the Unicode `White_Space` property.
pub open spec fn is_whitespace(c: char) -> bool {
    let n = c as int;
    (0x09 <= n <= 0x0D) || n == 0x20 || n == 0x85 || n == 0xA0 || n == 0x1680 || (0x2000 <= n
        <= 0x200A) || n == 0x2028 || n == 0x2029 || n == 0x202F || n == 0x205F || n == 0x3000
}

/// `s` holds a whitespace character.
pub open spec fn has_whitespace(s: Seq<char>) -> bool {
    exists|i: int| 0 <= i < s.len() && is_whitespace(#[trigger] s[i])
}

/// A character that `shlex` leaves unquoted: ASCII letters, digits, and `+ - . / : @ ] _`.
pub open spec fn unquoted_ok(c: char) -> bool {
    ('a' <= c <= 'z') || ('A' <= c <= 'Z') || ('0' <= c <= '9') || c == '+' || c == '-' || c
        == '.' || c == '/' || c == ':' || c == '@' || c == ']' || c == '_'
}

/// A non-empty word of characters that `shlex` leaves unquoted.
pub open spec fn is_plain_word(s: Seq<char>) -> bool {
    s.len() > 0 && forall|i: int| 0 <= i < s.len() ==> unquoted_ok(#[trigger] s[i])
}

/// What `shlex::try_quote` gives for a word without NUL characters.
pub uninterp spec fn shlex_try_quoted(s: Seq<char>) -> Seq<char>;

/// Quote a word for a POSIX shell with `shlex::try_quote`.
///
/// The contract claims what the shlex 1.3 source shows: the empty word becomes `''`, a non-empty
/// word of characters that need no quoting is returned unchanged, and otherwise the result is
/// named [`shlex_try_quoted`]. NUL characters, for which `try_quote` fails, are excluded.
#[verifier::external_body]
fn shlex_try_quote(s: &str) -> (r: String)
    requires
        !has_char(s@, '\0'),
    ensures
        r@ == shlex_try_quoted(s@),
        s@.len() == 0 ==> r@ == seq!['\'', '\''],
        is_plain_word(s@) ==> r@ == s@,
{
    match shlex::try_quote(s) {
        Ok(quoted) => quoted.into_owned(),
        Err(_) => String::new(),
    }
}

/// A character for which an argument is put in double quotes: shell metacharacters, whitespace
/// that separates words, and every non-ASCII character.
pub open spec fn needs_quotes(c: char) -> bool {
    c == '|' || c == '&' || c == ';' || c == '<' || c == '>' || c == '(' || c == ')' || c == '$'
        || c == '`' || c == '\\' || c == '"' || c == '\'' || c == ' ' || c == '\t' || c == '\r'
        || c == '\n' || c == '*' || c == '?' || c == '[' || c == '#' || c == '~' || c == '='
        || c == '%' || c == '{' || c == '}' || (c as int) >= 0x80
}

/// A character that is escaped with a backslash inside double quotes: `$`, `` ` ``, `"`, `\`.
pub open spec fn escaped_in_quotes(c: char) -> bool {
    c == '$' || c == '`' || c == '"' || c == '\\'
}

/// `s` with a backslash before each character that is escaped inside double quotes.
pub open spec fn backslash_escaped(s: Seq<char>) -> Seq<char>
    decreases s.len(),
{
    if s.len() == 0 {
        s
    } else {
        backslash_escaped(s.drop_last()) + (if escaped_in_quotes(s.last()) {
            seq!['\\', s.last()]
        } else {
            seq![s.last()]
        })
    }
}

/// How an argument of a command line is quoted: the empty word as `""`, a word with a character
/// that needs quotes in double quotes with `$`, `` ` ``, `"` and `\` escaped, and any other word
/// as it is.
pub open spec fn double_quoted(s: Seq<char>) -> Seq<char> {
    if s.len() == 0 {
        seq!['"', '"']
    } else if exists|i: int| 0 <= i < s.len() && needs_quotes(#[trigger] s[i]) {
        seq!['"'] + backslash_escaped(s) + seq!['"']
    } else {
        s
    }
}

/// Whether a character needs quotes, for executable code.
fn char_needs_quotes(c: char) -> (b: bool)
    ensures
        b == needs_quotes(c),
{
    c == '|' || c == '&' || c == ';' || c == '<' || c == '>' || c == '(' || c == ')' || c == '$'
        || c == '`' || c == '\\' || c == '"' || c == '\'' || c == ' ' || c == '\t' || c == '\r'
        || c == '\n' || c == '*' || c == '?' || c == '[' || c == '#' || c == '~' || c == '='
        || c == '%' || c == '{' || c == '}' || char_code(c) >= 0x80
}

/// Quote an argument of a command line: the empty word as `""`, a word with a character that
/// needs quotes in double quotes with `$`, `` ` ``, `"` and `\` escaped, and any other word as it
/// is.
pub fn double_quote(s: &str) -> (r: String)
    ensures
        r@ == double_quoted(s@),
{
    let v = chars(s);
    if v.len() == 0 {
        let mut r = String::new();
        push_char(&mut r, '"');
        push_char(&mut r, '"');
        assert(r@ =~= seq!['"', '"']);
        return r;
    }
    let mut needs = false;
    let mut i: usize = 0;
    while i < v.len()
        invariant
            i <= v@.len(),
            v@ == s@,
            needs == exists|j: int| 0 <= j < i && needs_quotes(#[trigger] s@[j]),
        decreases v@.len() - i,
    {
        if char_needs_quotes(v[i]) {
            needs = true;
        }
        i = i + 1;
    }
    if !needs {
        return s.to_owned();
    }
    let mut r = String::new();
    push_char(&mut r, '"');
    let mut k: usize = 0;
    while k < v.len()
        invariant
            k <= v@.len(),
            v@ == s@,
            r@ == seq!['"'] + backslash_escaped(s@.subrange(0, k as int)),
        decreases v@.len() - k,
    {
        let c = v[k];
        assert(s@.subrange(0, k + 1).drop_last() =~= s@.subrange(0, k as int));
        if c == '$' || c == '`' || c == '"' || c == '\\' {
            push_char(&mut r, '\\');
        }
        push_char(&mut r, c);
        k = k + 1;
        assert(r@ =~= seq!['"'] + backslash_escaped(s@.subrange(0, k as int)));
    }
    assert(s@.subrange(0, v@.len() as int) =~= s@);
    push_char(&mut r, '"');
    assert(r@ =~= seq!['"'] + backslash_escaped(s@) + seq!['"']);
    r
}

/// Checks if the character is an ASCII control character and is not an ASCII whitespace character.
pub fn char_is_ascii_control_not_whitespace(c: char) -> (b: bool)
    ensures
        b == is_control_not_whitespace(c),
{
    let n = char_code(c);
    n < 0x09 || (0x0E <= n && n < 0x20) || n == 0x7F
}

/// `char::is_whitespace`.
pub fn char_is_whitespace(c: char) -> (b: bool)
    ensures
        b == is_whitespace(c),
{
    let n = char_code(c);
    (0x09 <= n && n <= 0x0D) || n == 0x20 || n == 0x85 || n == 0xA0 || n == 0x1680 || (0x2000 <= n
        && n <= 0x200A) || n == 0x2028 || n == 0x2029 || n == 0x202F || n == 0x205F || n == 0x3000
}

/// `s` holds a whitespace character.
pub fn str_has_whitespace(s: &str) -> (b: bool)
    ensures
        b == has_whitespace(s@),
{
    let v = chars(s);
    let mut i: usize = 0;
    while i < v.len()
        invariant
            i <= v@.len(),
            v@ == s@,
            forall|j: int| 0 <= j < i ==> !is_whitespace(#[trigger] v@[j]),
        decreases v@.len() - i,
    {
        if char_is_whitespace(v[i]) {
            return true;
        }
        i = i + 1;
    }
    false
}

/// `s` without its ASCII control characters that are not whitespace.
pub open spec fn remove_controls(s: Seq<char>) -> Seq<char>
    decreases s.len(),
{
    if s.len() == 0 {
        s
    } else if is_control_not_whitespace(s.last()) {
        remove_controls(s.drop_last())
    } else {
        remove_controls(s.drop_last()).push(s.last())
    }
}

/// Encoding of a single shell argument: the word without its non-whitespace ASCII control
/// characters, quoted by `shlex::try_quote`.
pub open spec fn arg_quoted(s: Seq<char>) -> Seq<char> {
    shlex_try_quoted(remove_controls(s))
}

proof fn lemma_remove_controls_no_nul(s: Seq<char>)
    ensures
        !has_char(remove_controls(s), '\0'),
        forall|i: int|
            0 <= i < remove_controls(s).len() ==> !is_control_not_whitespace(
                #[trigger] remove_controls(s)[i],
            ),
    decreases s.len(),
{
    if s.len() > 0 {
        lemma_remove_controls_no_nul(s.drop_last());
        let r = remove_controls(s);
        let p = remove_controls(s.drop_last());
        if !is_control_not_whitespace(s.last()) {
            assert forall|i: int| 0 <= i < r.len() implies !is_control_not_whitespace(
                #[trigger] r[i],
            ) by {
                if i < p.len() {
                    assert(r[i] == p[i]);
                }
            }
        }
        if has_char(r, '\0') {
            let i = choose|i: int| 0 <= i < r.len() && r[i] == '\0';
            assert(is_control_not_whitespace(r[i]));
        }
    }
}

/// `remove_controls` leaves text without such characters unchanged.
pub proof fn lemma_remove_controls_none(s: Seq<char>)
    requires
        forall|i: int| 0 <= i < s.len() ==> !is_control_not_whitespace(#[trigger] s[i]),
    ensures
        remove_controls(s) == s,
    decreases s.len(),
{
    if s.len() > 0 {
        assert(!is_control_not_whitespace(s[s.len() - 1]));
        lemma_remove_controls_none(s.drop_last());
        assert(s.drop_last().push(s.last()) =~= s);
    }
}

/// Encode a string for use as a shell argument.
///
/// ASCII control characters that are not whitespace are silently removed.
pub fn arg_quote(arg: &str) -> (r: String)
    ensures
        r@ == arg_quoted(arg@),
{
    let v = chars(arg);
    let mut kept = String::new();
    let mut i: usize = 0;
    while i < v.len()
        invariant
            i <= v@.len(),
            v@ == arg@,
            kept@ == remove_controls(arg@.subrange(0, i as int)),
        decreases v@.len() - i,
    {
        assert(arg@.subrange(0, i + 1).drop_last() =~= arg@.subrange(0, i as int));
        if !char_is_ascii_control_not_whitespace(v[i]) {
            push_char(&mut kept, v[i]);
        }
        i = i + 1;
    }
    assert(arg@.subrange(0, v@.len() as int) =~= arg@);
    proof {
        lemma_remove_controls_no_nul(arg@);
    }
    shlex_try_quote(kept.as_str())
}

/// Join command arguments into a [`String`], [quoting](arg_quote()) when necessary.
///
/// Each argument is separated by a space.
pub fn command_join(args: &Vec<String>) -> (r: String)
    ensures
        r@ == join(args.deep_view().map_values(|a: Seq<char>| arg_quoted(a)), seq![' ']),
{
    let ghost quoted = args.deep_view().map_values(|a: Seq<char>| arg_quoted(a));
    let mut s = String::new();
    let mut i: usize = 0;
    while i < args.len()
        invariant
            i <= args@.len(),
            quoted == args.deep_view().map_values(|a: Seq<char>| arg_quoted(a)),
            s@ == join(quoted.subrange(0, i as int), seq![' ']),
        decreases args@.len() - i,
    {
        let ghost pre = quoted.subrange(0, i + 1);
        assert(pre.drop_last() =~= quoted.subrange(0, i as int));
        let q = arg_quote(args[i].as_str());
        assert(q@ == quoted[i as int]);
        if i > 0 {
            push_char(&mut s, ' ');
        } else {
            assert(pre =~= seq![q@]);
        }
        push_str(&mut s, q.as_str());
        i = i + 1;
        assert(s@ =~= join(quoted.subrange(0, i as int), seq![' ']));
    }
    assert(quoted.subrange(0, args@.len() as int) =~= quoted);
    s
}

/// A word, in double quotes when it holds a space.
pub open spec fn space_quoted(w: Seq<char>) -> Seq<char> {
    if has_char(w, ' ') {
        seq!['"'] + w + seq!['"']
    } else {
        w
    }
}

/// Join words with the separator `sep`, putting each word that holds a space in double quotes.
pub fn escape_spaces_join_by(words: &Vec<String>, sep: char) -> (r: String)
    ensures
        r@ == join(words.deep_view().map_values(|w: Seq<char>| space_quoted(w)), seq![sep]),
{
    let ghost quoted = words.deep_view().map_values(|w: Seq<char>| space_quoted(w));
    let mut s = String::new();
    let mut i: usize = 0;
    while i < words.len()
        invariant
            i <= words@.len(),
            quoted == words.deep_view().map_values(|w: Seq<char>| space_quoted(w)),
            s@ == join(quoted.subrange(0, i as int), seq![sep]),
        decreases words@.len() - i,
    {
        let ghost pre = quoted.subrange(0, i + 1);
        assert(pre.drop_last() =~= quoted.subrange(0, i as int));
        let ghost s0 = s@;
        if i > 0 {
            push_char(&mut s, sep);
        } else {
            assert(pre =~= seq![quoted[0]]);
        }
        let ghost s1 = s@;
        let w = words[i].as_str();
        if crate::text::str_has_char(w, ' ') {
            push_char(&mut s, '"');
            push_str(&mut s, w);
            push_char(&mut s, '"');
            assert(s@ =~= s1 + quoted[i as int]);
        } else {
            push_str(&mut s, w);
        }
        i = i + 1;
        assert(s@ =~= join(quoted.subrange(0, i as int), seq![sep]));
    }
    assert(quoted.subrange(0, words@.len() as int) =~= quoted);
    s
}

/// Join words with spaces, putting each word that holds a space in double quotes.
pub fn escape_spaces_join(words: &Vec<String>) -> (r: String)
    ensures
        r@ == join(words.deep_view().map_values(|w: Seq<char>| space_quoted(w)), seq![' ']),
{
    escape_spaces_join_by(words, ' ')
}

/// A Quadlet value that holds whitespace, in double quotes, with each line feed written as the
/// two characters `\n`; other values as they are.
pub open spec fn whitespace_quoted(s: Seq<char>) -> Seq<char> {
    if has_whitespace(s) {
        seq!['"'] + escape_newlines(s) + seq!['"']
    } else {
        s
    }
}

/// `s` with each line feed replaced by `\n`.
pub open spec fn escape_newlines(s: Seq<char>) -> Seq<char>
    decreases s.len(),
{
    if s.len() == 0 {
        s
    } else if s.last() == '\n' {
        escape_newlines(s.drop_last()) + seq!['\\', 'n']
    } else {
        escape_newlines(s.drop_last()).push(s.last())
    }
}

/// Quote `s` when it holds whitespace, rewriting line feeds as `\n`.
pub fn quote_whitespace(s: &str) -> (r: String)
    ensures
        r@ == whitespace_quoted(s@),
{
    if !str_has_whitespace(s) {
        return s.to_owned();
    }
    let v = chars(s);
    let mut out = String::new();
    push_char(&mut out, '"');
    let mut i: usize = 0;
    while i < v.len()
        invariant
            i <= v@.len(),
            v@ == s@,
            out@ == seq!['"'] + escape_newlines(s@.subrange(0, i as int)),
        decreases v@.len() - i,
    {
        assert(s@.subrange(0, i + 1).drop_last() =~= s@.subrange(0, i as int));
        let ghost o = out@;
        if v[i] == '\n' {
            push_char(&mut out, '\\');
            push_char(&mut out, 'n');
            assert(out@ =~= seq!['"'] + escape_newlines(s@.subrange(0, i + 1)));
        } else {
            push_char(&mut out, v[i]);
            assert(out@ =~= seq!['"'] + escape_newlines(s@.subrange(0, i + 1)));
        }
        i = i + 1;
    }
    push_char(&mut out, '"');
    assert(s@.subrange(0, v@.len() as int) =~= s@);
    assert(out@ =~= seq!['"'] + escape_newlines(s@) + seq!['"']);
    out
}

} // verus!
