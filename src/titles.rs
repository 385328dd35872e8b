//! Chapter title resolution: candidates from the table of contents, the
//! document's title element and the first section's title attribute.

use vstd::prelude::*;
use crate::chars::to_chars;
use crate::custom_replacements::strings_view;

verus! {

/// Every string of `s` is the same (trivially so when there is none).
pub open spec fn all_same(s: Seq<Seq<char>>) -> bool {
    forall|i: int, j: int| 0 <= i < s.len() && 0 <= j < s.len() ==> s[i] == s[j]
}

/// Whether all the strings are the same (or there are none).
pub fn all_strings_the_same(strings: &Vec<String>) -> (r: bool)
    ensures
        r == all_same(strings_view(strings@)),
{
    let ghost sv = strings_view(strings@);
    if strings.len() == 0 {
        return true;
    }
    let first = &strings[0];
    let mut i: usize = 0;
    while i < strings.len()
        invariant
            0 < strings.len(),
            i <= strings.len(),
            sv == strings_view(strings@),
            first@ == sv[0],
            forall|k: int| 0 <= k < i ==> #[trigger] sv[k] == sv[0],
        decreases strings.len() - i,
    {
        if strings[i] != *first {
            assert(sv[i as int] != sv[0]);
            return false;
        }
        i = i + 1;
    }
    assert forall|a: int, b: int| 0 <= a < sv.len() && 0 <= b < sv.len() implies sv[a] == sv[b] by {
        assert(sv[a] == sv[0]);
        assert(sv[b] == sv[0]);
    }
    true
}

/// `needle` occurs in `hay` starting at position `i`.
pub open spec fn occurs_at(hay: Seq<char>, needle: Seq<char>, i: int) -> bool {
    0 <= i && i + needle.len() <= hay.len() && hay.subrange(i, i + needle.len()) == needle
}

/// `needle` occurs somewhere in `hay`.
pub open spec fn contains(hay: Seq<char>, needle: Seq<char>) -> bool {
    exists|i: int| occurs_at(hay, needle, i)
}

fn contains_chars(hay: &Vec<char>, needle: &Vec<char>) -> (r: bool)
    ensures
        r == contains(hay@, needle@),
{
    if needle.len() > hay.len() {
        assert forall|i: int| !occurs_at(hay@, needle@, i) by {}
        return false;
    }
    let mut i: usize = 0;
    while i <= hay.len() - needle.len()
        invariant
            needle.len() <= hay.len(),
            forall|k: int| 0 <= k < i ==> !occurs_at(hay@, needle@, k),
        decreases hay.len() - needle.len() + 1 - i,
    {
        let mut j: usize = 0;
        while j < needle.len() && hay[i + j] == needle[j]
            invariant
                i + needle.len() <= hay.len(),
                j <= needle.len(),
                forall|k: int| 0 <= k < j ==> hay@[i + k] == needle@[k],
            decreases needle.len() - j,
        {
            j = j + 1;
        }
        if j == needle.len() {
            assert(hay@.subrange(i as int, i + needle.len()) =~= needle@);
            assert(occurs_at(hay@, needle@, i as int));
            return true;
        }
        assert(hay@.subrange(i as int, i + needle.len())[j as int] != needle@[j as int]);
        i = i + 1;
    }
    assert forall|k: int| !occurs_at(hay@, needle@, k) by {
        if 0 <= k < i {
        }
    }
    false
}

/// A table-of-contents entry: its label and the content reference it points at.
#[derive(Debug)]
pub struct TocEntry {
    pub label: String,
    pub content: String,
}

/// The label of the last entry of `toc` whose content reference contains
/// `path`; empty where none does.
pub open spec fn toc_label_for(toc: Seq<TocEntry>, path: Seq<char>) -> Seq<char>
    decreases toc.len(),
{
    if toc.len() == 0 {
        Seq::empty()
    } else if contains(toc.last().content@, path) {
        toc.last().label@
    } else {
        toc_label_for(toc.drop_last(), path)
    }
}

/// The table-of-contents title of the chapter stored at `path`: the label of
/// the last entry whose content reference contains `path`, or empty.
pub fn toc_title_for(toc: &Vec<TocEntry>, path: &str) -> (r: String)
    ensures
        r@ == toc_label_for(toc@, path@),
{
    let needle = to_chars(path);
    let mut r = String::new();
    let mut i: usize = 0;
    assert(toc@.take(0) =~= Seq::<TocEntry>::empty());
    while i < toc.len()
        invariant
            i <= toc.len(),
            needle@ == path@,
            r@ == toc_label_for(toc@.take(i as int), path@),
        decreases toc.len() - i,
    {
        let entry = &toc[i];
        assert(toc@.take(i + 1).drop_last() =~= toc@.take(i as int));
        assert(toc@.take(i + 1).last() == toc@[i as int]);
        let hay = to_chars(entry.content.as_str());
        if contains_chars(&hay, &needle) {
            r = entry.label.clone();
        }
        i = i + 1;
    }
    assert(toc@.take(i as int) =~= toc@);
    r
}

/// The concatenated text of the document's first title element; empty
/// where there is none.
pub uninterp spec fn title_element_text(html: Seq<char>) -> Seq<char>;

/// The `title` attribute of the document's first section element; empty
/// where there is no section or it has no such attribute.
pub uninterp spec fn section_title_attribute(html: Seq<char>) -> Seq<char>;

/// The concatenated text of the document's body elements.
pub uninterp spec fn body_text(html: Seq<char>) -> Seq<char>;

/// Relies on `scraper::Html::parse_document`, `Html::select` with the
/// selector `title` and `ElementRef::text`: the first title element's text.
#[verifier::external_body]
fn select_title_text(html: &str) -> (r: String)
    ensures
        r@ == title_element_text(html@),
{
    let document = scraper::Html::parse_document(html);
    let mut text = String::new();
    if let Ok(selector) = scraper::Selector::parse("title") {
        if let Some(element) = document.select(&selector).next() {
            for piece in element.text() {
                text.push_str(piece);
            }
        }
    }
    text
}

/// Relies on `scraper::Html::parse_document`, `Html::select` with the
/// selector `section` and `ElementRef::attr`: the first section's `title`.
#[verifier::external_body]
fn select_section_title(html: &str) -> (r: String)
    ensures
        r@ == section_title_attribute(html@),
{
    let document = scraper::Html::parse_document(html);
    let first = match scraper::Selector::parse("section") {
        Ok(selector) => document.select(&selector).next(),
        Err(_) => None,
    };
    match first {
        Some(element) => element.attr("title").unwrap_or("").to_string(),
        None => String::new(),
    }
}

/// Relies on `scraper::Html::parse_document` and `Html::select` with the
/// selector `body`: the text of every body element, joined.
#[verifier::external_body]
fn select_body_text(html: &str) -> (r: String)
    ensures
        r@ == body_text(html@),
{
    let document = scraper::Html::parse_document(html);
    let mut text = String::new();
    if let Ok(selector) = scraper::Selector::parse("body") {
        for element in document.select(&selector) {
            for piece in element.text() {
                text.push_str(piece);
            }
        }
    }
    text
}

/// The text of the document's title element.
pub fn get_title_from_title_tag(html: &str) -> (r: String)
    ensures
        r@ == title_element_text(html@),
{
    select_title_text(html)
}

/// The `title` attribute of the document's first section element, or empty.
pub fn get_title_from_section_tag(html: &str) -> (r: String)
    ensures
        r@ == section_title_attribute(html@),
{
    select_section_title(html)
}

/// The plain text of the document's body, as extracted before normalization.
pub fn extract_text_from_html(html: &str) -> (r: String)
    ensures
        r@ == body_text(html@),
{
    select_body_text(html)
}

/// The title-element text that marks a cover page rather than a chapter.
pub const PLACEHOLDER_TITLE: &'static str = "Cover";

/// One spine entry: its stable identifier, its resource path and its HTML.
#[derive(Debug)]
pub struct ChapterSource {
    pub idref: String,
    pub path: String,
    pub html: String,
}

/// The title candidates of a whole book, and whether each in-document source
/// is uniform (the same string for every chapter, or absent).
#[derive(Debug)]
pub struct ChapterTitles {
    /// The resolved title of each chapter, in spine order (may be empty).
    pub toc_titles: Vec<String>,
    /// The title-element text of each chapter, in spine order.
    pub chapter_title_tags: Vec<String>,
    /// The title-element texts, cover placeholders left out.
    pub title_tag_titles: Vec<String>,
    /// The first section's title attribute of each chapter.
    pub section_tag_titles: Vec<String>,
    pub title_tags_uniform: bool,
    pub section_tags_uniform: bool,
}

pub open spec fn toc_candidates(chapters: Seq<ChapterSource>, toc: Seq<TocEntry>) -> Seq<Seq<char>> {
    chapters.map_values(|c: ChapterSource| toc_label_for(toc, c.path@))
}

pub open spec fn title_texts(chapters: Seq<ChapterSource>) -> Seq<Seq<char>> {
    chapters.map_values(|c: ChapterSource| title_element_text(c.html@))
}

pub open spec fn section_candidates(chapters: Seq<ChapterSource>) -> Seq<Seq<char>> {
    chapters.map_values(|c: ChapterSource| section_title_attribute(c.html@))
}

/// The title-element texts of `chapters` in order, each equal to the cover
/// placeholder left out.
pub open spec fn title_candidates(chapters: Seq<ChapterSource>) -> Seq<Seq<char>>
    decreases chapters.len(),
{
    if chapters.len() == 0 {
        seq![]
    } else {
        let init = title_candidates(chapters.drop_last());
        let t = title_element_text(chapters.last().html@);
        if t == PLACEHOLDER_TITLE@ {
            init
        } else {
            init.push(t)
        }
    }
}

/// Gathers every chapter's title candidates. The resolved title of each
/// chapter is its table-of-contents candidate; the uniformity of the other
/// two sources is reported alongside and changes nothing.
pub fn get_chapter_titles(chapters: &Vec<ChapterSource>, toc: &Vec<TocEntry>) -> (r: ChapterTitles)
    ensures
        strings_view(r.toc_titles@) == toc_candidates(chapters@, toc@),
        strings_view(r.chapter_title_tags@) == title_texts(chapters@),
        strings_view(r.title_tag_titles@) == title_candidates(chapters@),
        strings_view(r.section_tag_titles@) == section_candidates(chapters@),
        r.title_tags_uniform == all_same(title_candidates(chapters@)),
        r.section_tags_uniform == all_same(section_candidates(chapters@)),
{
    let mut toc_titles: Vec<String> = Vec::new();
    let mut chapter_title_tags: Vec<String> = Vec::new();
    let mut title_tag_titles: Vec<String> = Vec::new();
    let mut section_tag_titles: Vec<String> = Vec::new();
    let cover = PLACEHOLDER_TITLE.to_string();
    let mut i: usize = 0;
    assert(chapters@.take(0) =~= Seq::<ChapterSource>::empty());
    while i < chapters.len()
        invariant
            i <= chapters.len(),
            cover@ == PLACEHOLDER_TITLE@,
            strings_view(toc_titles@) == toc_candidates(chapters@.take(i as int), toc@),
            strings_view(chapter_title_tags@) == title_texts(chapters@.take(i as int)),
            strings_view(title_tag_titles@) == title_candidates(chapters@.take(i as int)),
            strings_view(section_tag_titles@) == section_candidates(chapters@.take(i as int)),
        decreases chapters.len() - i,
    {
        let chapter = &chapters[i];
        let ghost done = chapters@.take(i as int);
        let ghost next = chapters@.take(i + 1);
        assert(next.drop_last() =~= done);
        assert(next.last() == chapters@[i as int]);
        let toc_title = toc_title_for(toc, chapter.path.as_str());
        let ghost tv = toc_title@;
        toc_titles.push(toc_title);
        assert(strings_view(toc_titles@) =~= toc_candidates(done, toc@).push(tv));
        assert(toc_candidates(next, toc@) =~= toc_candidates(done, toc@).push(tv));
        let title_tag_title = get_title_from_title_tag(chapter.html.as_str());
        let ghost tt = title_tag_title@;
        if title_tag_title != cover {
            title_tag_titles.push(title_tag_title.clone());
            assert(strings_view(title_tag_titles@) =~= title_candidates(next));
        }
        chapter_title_tags.push(title_tag_title);
        assert(strings_view(chapter_title_tags@) =~= title_texts(done).push(tt));
        assert(title_texts(next) =~= title_texts(done).push(tt));
        let section_tag_title = get_title_from_section_tag(chapter.html.as_str());
        let ghost sv = section_tag_title@;
        section_tag_titles.push(section_tag_title);
        assert(strings_view(section_tag_titles@) =~= section_candidates(done).push(sv));
        assert(section_candidates(next) =~= section_candidates(done).push(sv));
        i = i + 1;
    }
    assert(chapters@.take(i as int) =~= chapters@);
    let title_tags_uniform = all_strings_the_same(&title_tag_titles);
    let section_tags_uniform = all_strings_the_same(&section_tag_titles);
    ChapterTitles {
        toc_titles,
        chapter_title_tags,
        title_tag_titles,
        section_tag_titles,
        title_tags_uniform,
        section_tags_uniform,
    }
}

/// Each kept title-element text is the text of some chapter.
proof fn lemma_title_candidates_come_from_chapters(chapters: Seq<ChapterSource>)
    ensures
        forall|i: int|
            0 <= i < title_candidates(chapters).len() ==> exists|k: int|
                0 <= k < chapters.len() && #[trigger] title_candidates(chapters)[i]
                    == title_element_text(chapters[k].html@),
    decreases chapters.len(),
{
    if chapters.len() > 0 {
        let init = chapters.drop_last();
        lemma_title_candidates_come_from_chapters(init);
        let tc = title_candidates(chapters);
        assert forall|i: int| 0 <= i < tc.len() implies exists|k: int|
            0 <= k < chapters.len() && #[trigger] tc[i] == title_element_text(chapters[k].html@) by {
            if i < title_candidates(init).len() {
                let k = choose|k: int|
                    0 <= k < init.len() && title_candidates(init)[i] == title_element_text(
                        init[k].html@,
                    );
                assert(init[k] == chapters[k]);
            } else {
                assert(tc[i] == title_element_text(chapters[chapters.len() - 1].html@));
            }
        }
    }
}

/// Where every chapter's title element holds the same text, the title-element
/// source is reported uniform.
pub proof fn lemma_identical_title_tags_are_uniform(chapters: Seq<ChapterSource>)
    requires
        forall|i: int, j: int|
            0 <= i < chapters.len() && 0 <= j < chapters.len() ==> title_element_text(
                #[trigger] chapters[i].html@,
            ) == title_element_text(#[trigger] chapters[j].html@),
    ensures
        all_same(title_candidates(chapters)),
{
    lemma_title_candidates_come_from_chapters(chapters);
    let tc = title_candidates(chapters);
    assert forall|a: int, b: int| 0 <= a < tc.len() && 0 <= b < tc.len() implies tc[a] == tc[b] by {
        let ka = choose|k: int| 0 <= k < chapters.len() && tc[a] == title_element_text(chapters[k].html@);
        let kb = choose|k: int| 0 <= k < chapters.len() && tc[b] == title_element_text(chapters[k].html@);
        assert(title_element_text(chapters[ka].html@) == title_element_text(chapters[kb].html@));
    }
}

/// A chapter whose path occurs in the content reference of table-of-contents
/// entry `k`, and of no later entry, takes the label of entry `k`.
pub proof fn lemma_toc_entry_names_chapter(toc: Seq<TocEntry>, path: Seq<char>, k: int)
    requires
        0 <= k < toc.len(),
        contains(toc[k].content@, path),
        forall|j: int| k < j < toc.len() ==> !contains(#[trigger] toc[j].content@, path),
    ensures
        toc_label_for(toc, path) == toc[k].label@,
    decreases toc.len(),
{
    if k < toc.len() - 1 {
        let init = toc.drop_last();
        assert(!contains(toc[toc.len() - 1].content@, path));
        assert forall|j: int| k < j < init.len() implies !contains(#[trigger] init[j].content@, path) by {
            assert(init[j] == toc[j]);
        }
        lemma_toc_entry_names_chapter(init, path, k);
    }
}

} // verus!
