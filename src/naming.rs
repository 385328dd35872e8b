//! Output file names: the zero-padded chapter ordinal and the sanitized title
//! or identifier.

use vstd::prelude::*;
use crate::chars::{push_char, to_chars};

verus! {

/// Characters a file name keeps as they are.
pub open spec fn allowed_in_filename(c: char) -> bool {
    ||| 'a' <= c <= 'z'
    ||| 'A' <= c <= 'Z'
    ||| '0' <= c <= '9'
    ||| c == '_'
    ||| c == '.'
    ||| c == '-'
    ||| c == '/'
}

pub open spec fn sanitized_char(c: char) -> char {
    if allowed_in_filename(c) {
        c
    } else {
        '_'
    }
}

/// `s` with every character outside `[a-zA-Z0-9_.-/]` replaced by `_`.
pub open spec fn sanitized(s: Seq<char>) -> Seq<char> {
    s.map_values(|c: char| sanitized_char(c))
}

/// Replaces every character outside `[a-zA-Z0-9_.-/]` with `_`.
pub fn sanitize_filename(input: &str) -> (r: String)
    ensures
        r@ == sanitized(input@),
{
    let v = to_chars(input);
    let mut r = String::new();
    let mut i: usize = 0;
    while i < v.len()
        invariant
            i <= v.len(),
            v@ == input@,
            r@ == sanitized(v@.take(i as int)),
        decreases v.len() - i,
    {
        let c = v[i];
        let keep = ('a' <= c && c <= 'z') || ('A' <= c && c <= 'Z') || ('0' <= c && c <= '9') || c
            == '_' || c == '.' || c == '-' || c == '/';
        if keep {
            push_char(&mut r, c);
        } else {
            push_char(&mut r, '_');
        }
        assert(sanitized(v@.take(i + 1)) =~= sanitized(v@.take(i as int)).push(sanitized_char(c)));
        i = i + 1;
    }
    assert(v@.take(i as int) =~= v@);
    r
}

pub open spec fn digit_char(d: int) -> char {
    if d == 0 {
        '0'
    } else if d == 1 {
        '1'
    } else if d == 2 {
        '2'
    } else if d == 3 {
        '3'
    } else if d == 4 {
        '4'
    } else if d == 5 {
        '5'
    } else if d == 6 {
        '6'
    } else if d == 7 {
        '7'
    } else if d == 8 {
        '8'
    } else {
        '9'
    }
}

/// The decimal digits of `n`, most significant first, without leading zeros.
pub open spec fn decimal(n: nat) -> Seq<char>
    decreases n,
{
    if n < 10 {
        seq![digit_char(n as int)]
    } else {
        decimal(n / 10).push(digit_char((n % 10) as int))
    }
}

/// `n` in decimal, padded with zeros on the left to at least four digits.
pub open spec fn ordinal_prefix(n: nat) -> Seq<char> {
    let d = decimal(n);
    if d.len() < 4 {
        Seq::new((4 - d.len()) as nat, |i: int| '0') + d
    } else {
        d
    }
}

fn digit(d: usize) -> (c: char)
    requires
        d < 10,
    ensures
        c == digit_char(d as int),
{
    if d == 0 {
        '0'
    } else if d == 1 {
        '1'
    } else if d == 2 {
        '2'
    } else if d == 3 {
        '3'
    } else if d == 4 {
        '4'
    } else if d == 5 {
        '5'
    } else if d == 6 {
        '6'
    } else if d == 7 {
        '7'
    } else if d == 8 {
        '8'
    } else {
        '9'
    }
}

fn push_decimal(s: &mut String, n: usize)
    ensures
        final(s)@ == old(s)@ + decimal(n as nat),
    decreases n,
{
    if n >= 10 {
        push_decimal(s, n / 10);
    }
    push_char(s, digit(n % 10));
    assert(final(s)@ =~= old(s)@ + decimal(n as nat));
}

/// The ordinal as it starts an output file name: at least four digits.
pub fn ordinal_prefix_of(n: usize) -> (r: String)
    ensures
        r@ == ordinal_prefix(n as nat),
{
    let mut digits = String::new();
    push_decimal(&mut digits, n);
    let len = to_chars(digits.as_str()).len();
    let mut r = String::new();
    let mut k: usize = len;
    while k < 4
        invariant
            len <= k <= 4 || (len >= 4 && k == len),
            len == decimal(n as nat).len(),
            r@ == Seq::new((k - len) as nat, |i: int| '0'),
        decreases 4 - k,
    {
        push_char(&mut r, '0');
        assert(r@ =~= Seq::new((k + 1 - len) as nat, |i: int| '0'));
        k = k + 1;
    }
    r.append(digits.as_str());
    assert(r@ =~= ordinal_prefix(n as nat));
    r
}

/// The title a chapter's files are named after and its `.title` file holds:
/// the resolved title where it is longer than two characters, else the
/// chapter's identifier.
pub open spec fn usable_title(title: Seq<char>, idref: Seq<char>) -> Seq<char> {
    if title.len() > 2 {
        title
    } else {
        idref
    }
}

/// See `usable_title`.
pub fn title_to_use(title: &str, idref: &str) -> (r: String)
    ensures
        r@ == usable_title(title@, idref@),
{
    if to_chars(title).len() > 2 {
        title.to_string()
    } else {
        idref.to_string()
    }
}

/// The base name of a chapter's output files.
pub open spec fn file_stem(chapter_number: nat, title: Seq<char>, idref: Seq<char>) -> Seq<char> {
    ordinal_prefix(chapter_number) + seq!['_'] + sanitized(usable_title(title, idref))
}

/// The base name of a chapter's output files: the ordinal, at least four
/// digits, then `_` and the sanitized title or identifier.
pub fn chapter_file_stem(chapter_number: usize, title: &str, idref: &str) -> (r: String)
    ensures
        r@ == file_stem(chapter_number as nat, title@, idref@),
{
    let mut r = ordinal_prefix_of(chapter_number);
    push_char(&mut r, '_');
    let name = sanitize_filename(title_to_use(title, idref).as_str());
    r.append(name.as_str());
    r
}

/// A title of fewer than three characters gives way to the chapter's
/// identifier, in the `.title` file and in the file name alike.
pub proof fn lemma_short_title_falls_back(chapter_number: nat, title: Seq<char>, idref: Seq<char>)
    requires
        title.len() < 3,
    ensures
        usable_title(title, idref) == idref,
        file_stem(chapter_number, title, idref) == ordinal_prefix(chapter_number) + seq!['_']
            + sanitized(idref),
{
}

} // verus!
