//! The built-in normalizer: fixed rule lists for structural cleanup, currency
//! expansion and speed-unit expansion, run through the pattern engine.

use vstd::prelude::*;
use crate::engine::{apply_all, apply_rules, engine_result, rule_view, rules_view, PatternError, RuleView};

verus! {

/// Paragraph-break markers become periods, trailing line whitespace and
/// blank lines go, then newlines at the very start of the text go.
pub open spec fn clean_rules() -> Seq<RuleView> {
    seq![
        ("@BRK#"@, "."@),
        (r"\s*\n"@, "\n"@),
        (r"\n+"@, "\n"@),
        (r"^\n+"@, ""@),
    ]
}

/// Dollar amounts in words: the lone `$1` at the end, scaled amounts, then
/// every other amount.
pub open spec fn money_rules() -> Seq<RuleView> {
    seq![
        (r"\$1$"@, "one dollar"@),
        (r"\$([0-9][0-9,]*(?:\.[0-9]+)?\s(?:million|billion|trillion))"@, "$1 dollars"@),
        (r"\$(?<m>[,0-9]+)"@, "$m dollars"@),
    ]
}

/// Kilometers per hour, then miles per hour: the acronym, then the dotted
/// form before a newline, before a capital letter, and anywhere else.
pub open spec fn speed_rules() -> Seq<RuleView> {
    seq![
        ("kph"@, "kilometers per hour"@),
        (r"k\.p\.h\.\n"@, "kilometers per hour.\n"@),
        (r"k\.p\.h\.(\s+[A-Z])"@, "kilometers per hour.$1"@),
        (r"k\.p\.h\."@, "kilometers per hour"@),
        ("mph"@, "miles per hour"@),
        (r"m\.p\.h\.\n"@, "miles per hour.\n"@),
        (r"m\.p\.h\.(\s+[A-Z])"@, "miles per hour.$1"@),
        (r"m\.p\.h\."@, "miles per hour"@),
    ]
}

fn rule(pattern: &str, replacement: &str) -> (r: (String, String))
    ensures
        rule_view(r) == (pattern@, replacement@),
{
    (pattern.to_string(), replacement.to_string())
}

fn clean_rule_list() -> (r: Vec<(String, String)>)
    ensures
        rules_view(r@) == clean_rules(),
{
    let r = vec![
        rule("@BRK#", "."),
        rule(r"\s*\n", "\n"),
        rule(r"\n+", "\n"),
        rule(r"^\n+", ""),
    ];
    assert(rules_view(r@) =~= clean_rules());
    r
}

/// Structural cleanup of extracted chapter text.
pub fn clean_text(text: &str) -> (r: Result<String, PatternError>)
    ensures
        engine_result(text@, clean_rules(), r),
{
    apply_rules(text, &clean_rule_list())
}

fn money_rule_list() -> (r: Vec<(String, String)>)
    ensures
        rules_view(r@) == money_rules(),
{
    let r = vec![
        rule(r"\$1$", "one dollar"),
        rule(r"\$([0-9][0-9,]*(?:\.[0-9]+)?\s(?:million|billion|trillion))", "$1 dollars"),
        rule(r"\$(?<m>[,0-9]+)", "$m dollars"),
    ];
    assert(rules_view(r@) =~= money_rules());
    r
}

fn speed_rule_list() -> (r: Vec<(String, String)>)
    ensures
        rules_view(r@) == speed_rules(),
{
    let r = vec![
        rule("kph", "kilometers per hour"),
        rule(r"k\.p\.h\.\n", "kilometers per hour.\n"),
        rule(r"k\.p\.h\.(\s+[A-Z])", "kilometers per hour.$1"),
        rule(r"k\.p\.h\.", "kilometers per hour"),
        rule("mph", "miles per hour"),
        rule(r"m\.p\.h\.\n", "miles per hour.\n"),
        rule(r"m\.p\.h\.(\s+[A-Z])", "miles per hour.$1"),
        rule(r"m\.p\.h\.", "miles per hour"),
    ];
    assert(rules_view(r@) =~= speed_rules());
    r
}

/// Rewrites dollar amounts in spoken form.
pub fn convert_money_to_words(text: &str) -> (r: Result<String, PatternError>)
    ensures
        engine_result(text@, money_rules(), r),
{
    apply_rules(text, &money_rule_list())
}

/// Expands kph, mph and their dotted forms to full words.
pub fn convert_speed_from_acronyms_to_full_text(text: &str) -> (r: Result<String, PatternError>)
    ensures
        engine_result(text@, speed_rules(), r),
{
    apply_rules(text, &speed_rule_list())
}

/// The whole built-in normalizer, stage after stage.
pub open spec fn builtin_rules() -> Seq<RuleView> {
    clean_rules() + money_rules() + speed_rules()
}

/// Running a list made of two parts is running the first part, then the second.
pub proof fn lemma_apply_all_concat(text: Seq<char>, a: Seq<RuleView>, b: Seq<RuleView>)
    ensures
        apply_all(text, a + b) == apply_all(apply_all(text, a), b),
    decreases b.len(),
{
    if b.len() == 0 {
        assert(a + b =~= a);
    } else {
        assert((a + b).drop_last() =~= a + b.drop_last());
        assert((a + b).last() == b.last());
        lemma_apply_all_concat(text, a, b.drop_last());
    }
}

/// The built-in normalizer is structural cleanup, then currency expansion,
/// then speed expansion, each stage working on the output of the one before.
pub proof fn lemma_builtin_stages(text: Seq<char>)
    ensures
        apply_all(text, builtin_rules()) == apply_all(
            apply_all(apply_all(text, clean_rules()), money_rules()),
            speed_rules(),
        ),
{
    lemma_apply_all_concat(text, clean_rules() + money_rules(), speed_rules());
    lemma_apply_all_concat(text, clean_rules(), money_rules());
}

/// Runs the whole built-in normalizer over `text`.
pub fn normalize_text(text: &str) -> (r: Result<String, PatternError>)
    ensures
        engine_result(text@, builtin_rules(), r),
{
    let mut rules = clean_rule_list();
    let mut money = money_rule_list();
    let mut speed = speed_rule_list();
    rules.append(&mut money);
    rules.append(&mut speed);
    assert(rules_view(rules@) =~= builtin_rules());
    apply_rules(text, &rules)
}

} // verus!
