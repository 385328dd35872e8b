//! The user's rule file: one `pattern==replacement` rule per line, comments
//! starting with `#`, and the pass that runs the loaded rules.

use vstd::prelude::*;
use crate::chars::{string_from_range, to_chars};
use crate::engine::{apply_rules, engine_result, rule_view, rules_view, PatternError, RuleView};

verus! {

/// The pieces of `s` between newline characters; there is always at least one.
pub open spec fn split_newlines(s: Seq<char>) -> Seq<Seq<char>>
    decreases s.len(),
{
    if s.len() == 0 {
        seq![Seq::empty()]
    } else {
        let init = split_newlines(s.drop_last());
        if s.last() == '\n' {
            init.push(Seq::empty())
        } else {
            init.update(init.len() - 1, init.last().push(s.last()))
        }
    }
}

/// A line ended by `\r\n` loses its carriage return.
pub open spec fn strip_cr(piece: Seq<char>) -> Seq<char> {
    if piece.len() > 0 && piece.last() == '\r' {
        piece.drop_last()
    } else {
        piece
    }
}

/// The lines of `s`: pieces ended by a newline lose a trailing `\r`, and a
/// final empty piece is not a line.
pub open spec fn lines_of(s: Seq<char>) -> Seq<Seq<char>> {
    let pieces = split_newlines(s);
    let ended = pieces.drop_last().map_values(|p: Seq<char>| strip_cr(p));
    if pieces.last().len() == 0 {
        ended
    } else {
        ended.push(pieces.last())
    }
}

/// The delimiter `==` starts at position `i` of `line`.
pub open spec fn is_delim_at(line: Seq<char>, i: int) -> bool {
    0 <= i && i + 1 < line.len() && line[i] == '=' && line[i + 1] == '='
}

/// The first delimiter of `line` starts at `i`.
pub open spec fn first_delim_at(line: Seq<char>, i: int) -> bool {
    &&& is_delim_at(line, i)
    &&& forall|j: int| 0 <= j < i ==> !is_delim_at(line, j)
}

/// The rule a line defines: none for an empty line or a comment, else the
/// text before and after the first `==`, and none where there is no `==`.
pub open spec fn rule_of_line(line: Seq<char>) -> Option<RuleView> {
    if line.len() == 0 || line[0] == '#' {
        None
    } else if exists|i: int| first_delim_at(line, i) {
        let i = choose|i: int| first_delim_at(line, i);
        Some((line.take(i), line.skip(i + 2)))
    } else {
        None
    }
}

/// A line that is neither empty nor a comment, yet has no `==`.
pub open spec fn is_malformed(line: Seq<char>) -> bool {
    &&& line.len() > 0
    &&& line[0] != '#'
    &&& forall|i: int| !is_delim_at(line, i)
}

/// The rules defined by `lines`, in order.
pub open spec fn rules_from_lines(lines: Seq<Seq<char>>) -> Seq<RuleView>
    decreases lines.len(),
{
    if lines.len() == 0 {
        seq![]
    } else {
        let init = rules_from_lines(lines.drop_last());
        match rule_of_line(lines.last()) {
            Some(r) => init.push(r),
            None => init,
        }
    }
}

/// The malformed lines among `lines`, in order.
pub open spec fn malformed_from_lines(lines: Seq<Seq<char>>) -> Seq<Seq<char>>
    decreases lines.len(),
{
    if lines.len() == 0 {
        seq![]
    } else {
        let init = malformed_from_lines(lines.drop_last());
        if is_malformed(lines.last()) {
            init.push(lines.last())
        } else {
            init
        }
    }
}

/// The rule file's rules, in file order.
pub open spec fn rules_of_file(text: Seq<char>) -> Seq<RuleView> {
    rules_from_lines(lines_of(text))
}

/// Parses `v[from..to]` as one line of the rule file.
fn parse_line(v: &Vec<char>, from: usize, to: usize) -> (r: Option<(String, String)>)
    requires
        from <= to <= v.len(),
    ensures
        r is Some <==> rule_of_line(v@.subrange(from as int, to as int)) is Some,
        r matches Some(p) ==> rule_of_line(v@.subrange(from as int, to as int)) == Some(
            rule_view(p),
        ),
        r is None ==> (is_malformed(v@.subrange(from as int, to as int)) <==> (from < to && v[from as int] != '#')),
{
    let ghost line = v@.subrange(from as int, to as int);
    if from == to || v[from] == '#' {
        return None;
    }
    assert(line.len() > 0 && line[0] != '#');
    let mut i: usize = from;
    while i < to - 1
        invariant
            from <= i <= to <= v.len(),
            line == v@.subrange(from as int, to as int),
            line.len() > 0 && line[0] != '#',
            forall|j: int| 0 <= j < i - from ==> !is_delim_at(line, j),
        decreases to - i,
    {
        if v[i] == '=' && v[i + 1] == '=' {
            let ghost k = i - from;
            assert(first_delim_at(line, k));
            let ghost c = choose|c: int| first_delim_at(line, c);
            assert(c == k) by {
                if c < k {
                    assert(!is_delim_at(line, c));
                } else if c > k {
                    assert(!is_delim_at(line, k));
                }
            }
            let pattern = string_from_range(v, from, i);
            let replacement = string_from_range(v, i + 2, to);
            assert(pattern@ =~= line.take(k));
            assert(replacement@ =~= line.skip(k + 2));
            return Some((pattern, replacement));
        }
        i = i + 1;
    }
    assert forall|j: int| !is_delim_at(line, j) by {
        if 0 <= j < i - from {
        }
    }
    assert(!exists|j: int| first_delim_at(line, j));
    None
}

/// Parses one line of the rule file. A line that defines no rule (empty, a
/// comment, or one without `==`) gives a pair of empty strings.
pub fn process_line(text: &str) -> (r: (String, String))
    ensures
        rule_of_line(text@) matches Some(p) ==> rule_view(r) == p,
        rule_of_line(text@) is None ==> r.0@.len() == 0 && r.1@.len() == 0,
{
    let v = to_chars(text);
    assert(v@.subrange(0, v@.len() as int) =~= text@);
    match parse_line(&v, 0, v.len()) {
        Some(p) => p,
        None => (String::new(), String::new()),
    }
}

pub open spec fn strings_view(v: Seq<String>) -> Seq<Seq<char>> {
    v.map_values(|s: String| s@)
}

/// Files the line `v[from..to]` under the rules or under the malformed lines.
fn take_line(
    v: &Vec<char>,
    from: usize,
    to: usize,
    rules: &mut Vec<(String, String)>,
    bad: &mut Vec<String>,
)
    requires
        from <= to <= v.len(),
    ensures
        ({
            let line = v@.subrange(from as int, to as int);
            &&& rules_view(final(rules)@) == match rule_of_line(line) {
                Some(r) => rules_view(old(rules)@).push(r),
                None => rules_view(old(rules)@),
            }
            &&& strings_view(final(bad)@) == if is_malformed(line) {
                strings_view(old(bad)@).push(line)
            } else {
                strings_view(old(bad)@)
            }
        }),
{
    let ghost line = v@.subrange(from as int, to as int);
    match parse_line(v, from, to) {
        Some(p) => {
            let ghost rp = rule_view(p);
            rules.push(p);
            assert(rules_view(rules@) =~= rules_view(old(rules)@).push(rp));
            assert(!is_malformed(line)) by {
                let i = choose|i: int| first_delim_at(line, i);
                assert(is_delim_at(line, i));
            }
        },
        None => {
            if from < to && v[from] != '#' {
                let s = string_from_range(v, from, to);
                bad.push(s);
                assert(strings_view(bad@) =~= strings_view(old(bad)@).push(line));
            }
        },
    }
}

/// Reads the whole rule file: its rules in file order, and its malformed lines.
fn scan_rule_file(text: &str) -> (r: (Vec<(String, String)>, Vec<String>))
    ensures
        rules_view(r.0@) == rules_of_file(text@),
        strings_view(r.1@) == malformed_from_lines(lines_of(text@)),
{
    let v = to_chars(text);
    let mut rules: Vec<(String, String)> = Vec::new();
    let mut bad: Vec<String> = Vec::new();
    let ghost mut pieces: Seq<Seq<char>> = seq![];
    let mut start: usize = 0;
    let mut i: usize = 0;
    assert(v@.take(0) =~= Seq::<char>::empty());
    assert(v@.subrange(0, 0) =~= Seq::<char>::empty());
    assert(rules_view(rules@) =~= seq![]);
    assert(strings_view(bad@) =~= seq![]);
    while i < v.len()
        invariant
            start <= i <= v.len(),
            v@ == text@,
            split_newlines(v@.take(i as int)) == pieces.push(v@.subrange(start as int, i as int)),
            rules_view(rules@) == rules_from_lines(pieces.map_values(|p: Seq<char>| strip_cr(p))),
            strings_view(bad@) == malformed_from_lines(pieces.map_values(|p: Seq<char>| strip_cr(p))),
        decreases v.len() - i,
    {
        assert(v@.take(i + 1).drop_last() =~= v@.take(i as int));
        assert(v@.take(i + 1).last() == v@[i as int]);
        let ghost piece = v@.subrange(start as int, i as int);
        if v[i] == '\n' {
            let end: usize = if i > start && v[i - 1] == '\r' {
                i - 1
            } else {
                i
            };
            assert(v@.subrange(start as int, end as int) =~= strip_cr(piece));
            take_line(&v, start, end, &mut rules, &mut bad);
            proof {
                let old_lines = pieces.map_values(|p: Seq<char>| strip_cr(p));
                pieces = pieces.push(piece);
                let lines = pieces.map_values(|p: Seq<char>| strip_cr(p));
                assert(lines =~= old_lines.push(strip_cr(piece)));
                assert(lines.drop_last() =~= old_lines);
            }
            start = i + 1;
            assert(v@.subrange(start as int, i + 1) =~= Seq::<char>::empty());
        } else {
            assert(v@.subrange(start as int, i + 1) =~= piece.push(v@[i as int]));
        }
        i = i + 1;
    }
    assert(v@.take(i as int) =~= v@);
    let ghost last = v@.subrange(start as int, i as int);
    let ghost ended = pieces.map_values(|p: Seq<char>| strip_cr(p));
    assert(split_newlines(text@).drop_last() =~= pieces);
    if start < v.len() {
        take_line(&v, start, v.len(), &mut rules, &mut bad);
        assert(lines_of(text@) =~= ended.push(last));
        assert(lines_of(text@).drop_last() =~= ended);
    } else {
        assert(lines_of(text@) =~= ended);
    }
    (rules, bad)
}

/// Reads a rule file's text into its rules, in file order. Empty lines,
/// comments and lines without `==` define none.
pub fn process_file_text(text: &str) -> (r: Vec<(String, String)>)
    ensures
        rules_view(r@) == rules_of_file(text@),
{
    scan_rule_file(text).0
}

/// The lines of a rule file that are neither empty nor comments and hold no
/// `==`: each is skipped by `process_file_text` and deserves a diagnostic.
pub fn malformed_lines(text: &str) -> (r: Vec<String>)
    ensures
        strings_view(r@) == malformed_from_lines(lines_of(text@)),
{
    scan_rule_file(text).1
}

/// Runs the loaded rules over `text`, in file order.
pub fn process_user_replacements(text: &str, replacements: &Vec<(String, String)>) -> (r: Result<
    String,
    PatternError,
>)
    ensures
        engine_result(text@, rules_view(replacements@), r),
{
    apply_rules(text, replacements)
}

} // verus!
