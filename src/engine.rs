//! The pattern replacement engine: an ordered list of (pattern, replacement)
//! rules, each applied as a find-all-and-replace pass over the output of the
//! previous one.

use vstd::prelude::*;

verus! {

/// Whether `pattern` is accepted by the regular-expression compiler.
pub uninterp spec fn pattern_compiles(pattern: Seq<char>) -> bool;

/// The text obtained by replacing every non-overlapping match of `pattern`
/// in `text` with `replacement`, group references in it expanded.
pub uninterp spec fn replaced_all(pattern: Seq<char>, text: Seq<char>, replacement: Seq<char>) -> Seq<
    char,
>;

/// A rule as the engine sees it: (pattern, replacement template).
pub type RuleView = (Seq<char>, Seq<char>);

pub open spec fn rule_view(r: (String, String)) -> RuleView {
    (r.0@, r.1@)
}

pub open spec fn rules_view(rules: Seq<(String, String)>) -> Seq<RuleView> {
    rules.map_values(|r: (String, String)| rule_view(r))
}

/// Every rule's pattern compiles.
pub open spec fn rules_compile(rules: Seq<RuleView>) -> bool {
    forall|i: int| 0 <= i < rules.len() ==> pattern_compiles(#[trigger] rules[i].0)
}

/// `text` after every rule of `rules` has run, first to last.
pub open spec fn apply_all(text: Seq<char>, rules: Seq<RuleView>) -> Seq<char>
    decreases rules.len(),
{
    if rules.len() == 0 {
        text
    } else {
        let last = rules.last();
        replaced_all(last.0, apply_all(text, rules.drop_last()), last.1)
    }
}

/// A rule whose pattern does not compile; `rule` is its position in the list.
#[derive(Debug, Clone, Copy, PartialEq, Eq)]
pub struct PatternError {
    pub rule: usize,
}

/// `i` is the position of the first rule whose pattern does not compile.
pub open spec fn first_bad_rule(rules: Seq<RuleView>, i: int) -> bool {
    &&& 0 <= i < rules.len()
    &&& !pattern_compiles(rules[i].0)
    &&& forall|j: int| 0 <= j < i ==> pattern_compiles(#[trigger] rules[j].0)
}

/// The engine's outcome on `text` and `rules`.
pub open spec fn engine_result(text: Seq<char>, rules: Seq<RuleView>, r: Result<String, PatternError>) -> bool {
    &&& r is Ok <==> rules_compile(rules)
    &&& r matches Ok(s) ==> s@ == apply_all(text, rules)
    &&& r matches Err(e) ==> first_bad_rule(rules, e.rule as int)
}

/// Relies on `regex::Regex::new`, which reports whether the pattern compiles,
/// and `regex::Regex::replace_all`, which rewrites every non-overlapping match.
#[verifier::external_body]
fn regex_replace_all(pattern: &str, text: &str, replacement: &str) -> (r: Option<String>)
    ensures
        r is Some <==> pattern_compiles(pattern@),
        r matches Some(s) ==> s@ == replaced_all(pattern@, text@, replacement@),
{
    match regex::Regex::new(pattern) {
        Ok(re) => Some(re.replace_all(text, replacement).into_owned()),
        Err(_) => None,
    }
}

/// Runs every rule of `rules` over `text`, in order. Fails at the first rule
/// whose pattern does not compile.
pub fn apply_rules(text: &str, rules: &Vec<(String, String)>) -> (r: Result<String, PatternError>)
    ensures
        engine_result(text@, rules_view(rules@), r),
{
    let ghost rv = rules_view(rules@);
    let mut cur = text.to_string();
    let mut i: usize = 0;
    while i < rules.len()
        invariant
            i <= rules.len(),
            rv == rules_view(rules@),
            rules_compile(rv.take(i as int)),
            cur@ == apply_all(text@, rv.take(i as int)),
        decreases rules.len() - i,
    {
        let rule = &rules[i];
        match regex_replace_all(rule.0.as_str(), cur.as_str(), rule.1.as_str()) {
            Some(s) => {
                assert(rv[i as int] == rule_view(rules@[i as int]));
                assert(rv.take(i + 1).drop_last() == rv.take(i as int));
                cur = s;
            },
            None => {
                assert(rv[i as int] == rule_view(rules@[i as int]));
                assert forall|j: int| 0 <= j < i implies pattern_compiles(#[trigger] rv[j].0) by {
                    assert(rv.take(i as int)[j] == rv[j]);
                }
                assert(!pattern_compiles(rv[i as int].0));
                assert(!rules_compile(rv));
                assert(first_bad_rule(rv, i as int));
                return Err(PatternError { rule: i });
            },
        }
        i = i + 1;
    }
    assert(rv.take(i as int) == rv);
    Ok(cur)
}

} // verus!
