//! Per-chapter orchestration: the file name and title of each chapter, its
//! extracted text, and that text after the built-in and custom rules.

use vstd::prelude::*;
use crate::engine::{apply_all, apply_rules, first_bad_rule, rules_compile, rules_view, RuleView};
use crate::naming::{chapter_file_stem, file_stem, title_to_use, usable_title};
use crate::replace_text::{builtin_rules, normalize_text};
use crate::titles::{body_text, extract_text_from_html, ChapterSource};

verus! {

/// What is written for one chapter.
#[derive(Debug)]
pub struct ChapterOutput {
    /// Base name of the chapter's files, without extension.
    pub file_stem: String,
    /// Content of the `.title` file.
    pub title: String,
    /// The text extracted from the HTML, before any rule ran.
    pub original_text: String,
    /// The text after the built-in normalizer and the custom rules.
    pub text: String,
}

/// A rule whose pattern does not compile, among the built-in rules or the
/// custom ones, with its position in its list.
#[derive(Debug, Clone, Copy, PartialEq, Eq)]
pub enum ConversionError {
    BuiltinPattern(usize),
    CustomPattern(usize),
}

/// The custom rules, none where no rule file was loaded.
pub open spec fn custom_view(custom: Option<Vec<(String, String)>>) -> Seq<RuleView> {
    match custom {
        Some(rules) => rules_view(rules@),
        None => seq![],
    }
}

/// A chapter's final text: the built-in normalizer, then the custom rules.
pub open spec fn chapter_text(original: Seq<char>, custom: Seq<RuleView>) -> Seq<char> {
    apply_all(apply_all(original, builtin_rules()), custom)
}

/// Runs the built-in normalizer, then the custom rules if a rule file was
/// loaded, over a chapter's extracted text.
pub fn normalize_chapter_text(text: &str, custom: &Option<Vec<(String, String)>>) -> (r: Result<
    String,
    ConversionError,
>)
    ensures
        r is Ok <==> rules_compile(builtin_rules()) && rules_compile(custom_view(*custom)),
        r matches Ok(s) ==> s@ == chapter_text(text@, custom_view(*custom)),
        r matches Err(ConversionError::BuiltinPattern(i)) ==> first_bad_rule(builtin_rules(), i as int),
        r matches Err(ConversionError::CustomPattern(i)) ==> rules_compile(builtin_rules())
            && first_bad_rule(custom_view(*custom), i as int),
{
    let cleansed = match normalize_text(text) {
        Ok(s) => s,
        Err(e) => {
            return Err(ConversionError::BuiltinPattern(e.rule));
        },
    };
    match custom {
        Some(rules) => match apply_rules(cleansed.as_str(), rules) {
            Ok(s) => Ok(s),
            Err(e) => Err(ConversionError::CustomPattern(e.rule)),
        },
        None => Ok(cleansed),
    }
}

/// Everything written for the chapter at 1-based position `chapter_number`,
/// whose resolved title is `title`.
pub fn convert_chapter(
    chapter_number: usize,
    chapter: &ChapterSource,
    title: &str,
    custom: &Option<Vec<(String, String)>>,
) -> (r: Result<ChapterOutput, ConversionError>)
    ensures
        r is Ok <==> rules_compile(builtin_rules()) && rules_compile(custom_view(*custom)),
        r matches Ok(out) ==> {
            &&& out.file_stem@ == file_stem(chapter_number as nat, title@, chapter.idref@)
            &&& out.title@ == usable_title(title@, chapter.idref@)
            &&& out.original_text@ == body_text(chapter.html@)
            &&& out.text@ == chapter_text(body_text(chapter.html@), custom_view(*custom))
        },
        r matches Err(ConversionError::BuiltinPattern(i)) ==> first_bad_rule(builtin_rules(), i as int),
        r matches Err(ConversionError::CustomPattern(i)) ==> rules_compile(builtin_rules())
            && first_bad_rule(custom_view(*custom), i as int),
{
    let file_stem = chapter_file_stem(chapter_number, title, chapter.idref.as_str());
    let title = title_to_use(title, chapter.idref.as_str());
    let original_text = extract_text_from_html(chapter.html.as_str());
    let text = normalize_chapter_text(original_text.as_str(), custom)?;
    Ok(ChapterOutput { file_stem, title, original_text, text })
}

/// With no rule file, or an empty one, a chapter's final text is the built-in
/// normalizer's output, which depends on the extracted text alone.
pub proof fn lemma_without_custom_rules(original: Seq<char>, other: Seq<char>)
    ensures
        chapter_text(original, seq![]) == apply_all(original, builtin_rules()),
        original == other ==> chapter_text(original, seq![]) == chapter_text(other, seq![]),
{
}

/// The shell script that exports the book's title, author and cover name.
pub open spec fn bash_environment(title: Seq<char>, author: Seq<char>) -> Seq<char> {
    "#!/bin/bash\n export BOOK_TITLE=\""@ + title + "\" \n export BOOK_AUTHOR=\""@ + author
        + "\" \n export BOOK_COVER=\"cover\" \n"@
}

/// The text of the script that exports the book's title, author and cover
/// name for the later audio steps.
pub fn create_bash_environment(title: &str, author: &str) -> (r: String)
    ensures
        r@ == bash_environment(title@, author@),
{
    let mut r = "#!/bin/bash\n export BOOK_TITLE=\"".to_string();
    r.append(title);
    r.append("\" \n export BOOK_AUTHOR=\"");
    r.append(author);
    r.append("\" \n export BOOK_COVER=\"cover\" \n");
    r
}

} // verus!
