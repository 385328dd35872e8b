use epub2audiobook::titles::{
    all_strings_the_same, extract_text_from_html, get_chapter_titles, get_title_from_section_tag,
    get_title_from_title_tag, toc_title_for, ChapterSource, TocEntry,
};

fn toc_entry(label: &str, content: &str) -> TocEntry {
    TocEntry {
        label: label.to_string(),
        content: content.to_string(),
    }
}

fn chapter(idref: &str, path: &str, html: &str) -> ChapterSource {
    ChapterSource {
        idref: idref.to_string(),
        path: path.to_string(),
        html: html.to_string(),
    }
}

#[test]
fn get_title_from_section_tag_handles_empty_string() {
    assert_eq!(get_title_from_section_tag(""), "");
}

#[test]
fn get_title_from_section_tag_returns_title() {
    let html = r#"<html xmlns="http://www.w3.org/2000/xhtml" xmlns:epub="http://www.idpf.org/2007/ops" lang="en" xml:lang="en">
        <head>
        <title>title_tag</title>
        <link href="../styles/template.css" rel="stylesheet" type="text/css"/>
        <meta content="urn:uuid" name="meta.content"/>
        </head>
        <body epub:type="bodymatter">
        <section epub:type="bodymatter" id="ch1" title="section_tag">"#;
    assert_eq!(get_title_from_section_tag(html), "section_tag");
}

#[test]
fn get_title_from_section_tag_returns_blank_if_section_tag_missing() {
    let html = r#"<html xmlns="http://www.w3.org/2000/xhtml" xmlns:epub="http://www.idpf.org/2007/ops" lang="en" xml:lang="en">
        <head>
        <title>title_tag</title>
        <link href="../styles/template.css" rel="stylesheet" type="text/css"/>
        <meta content="urn:uuid" name="meta.content"/>
        </head>
        <body epub:type="bodymatter">"#;
    assert_eq!(get_title_from_section_tag(html), "");
}

#[test]
fn get_title_from_title_tag_handles_empty_string() {
    assert_eq!(get_title_from_title_tag(""), "");
}

#[test]
fn get_title_from_title_tag_returns_title() {
    let html = r#"<html xmlns="http://www.w3.org/2000/xhtml" xmlns:epub="http://www.idpf.org/2007/ops" lang="en" xml:lang="en">
        <head>
        <title>title_tag</title>
        <link href="../styles/template.css" rel="stylesheet" type="text/css"/>
        <meta content="urn:uuid" name="meta.content"/>
        </head>
        <body epub:type="bodymatter">
        <section epub:type="bodymatter" id="ch1" title="section_tag">"#;
    assert_eq!(get_title_from_title_tag(html), "title_tag");
}

#[test]
fn get_title_from_title_tag_returns_blank_if_section_tag_missing() {
    let html = r#"<html xmlns="http://www.w3.org/2000/xhtml" xmlns:epub="http://www.idpf.org/2007/ops" lang="en" xml:lang="en">
        <head>
        <link href="../styles/template.css" rel="stylesheet" type="text/css"/>
        <meta content="urn:uuid" name="meta.content"/>
        </head>
        <body epub:type="bodymatter">"#;
    assert_eq!(get_title_from_title_tag(html), "");
}

#[test]
fn test_all_strings_the_same() {
    let strings: Vec<String> = vec!["one".to_string(), "two".to_string(), "three".to_string()];
    assert!(!all_strings_the_same(&strings));

    let strings: Vec<String> = vec!["one".to_string(), "one".to_string(), "one".to_string()];
    assert!(all_strings_the_same(&strings));
}

#[test]
fn all_strings_the_same_on_none_and_on_blanks() {
    assert!(all_strings_the_same(&Vec::new()));
    assert!(all_strings_the_same(&vec![String::new(), String::new()]));
    assert!(!all_strings_the_same(&vec!["a".to_string(), String::new()]));
}

#[test]
fn body_text_is_extracted() {
    let html = "<html><head><title>T</title></head><body><p>Hello</p><p>world</p></body></html>";
    assert_eq!(extract_text_from_html(html), "Helloworld");
}

#[test]
fn toc_last_matching_entry_wins() {
    let toc = vec![
        toc_entry("First", "OEBPS/ch1.xhtml"),
        toc_entry("Other", "OEBPS/ch2.xhtml"),
        toc_entry("Second", "OEBPS/ch1.xhtml#part2"),
    ];
    assert_eq!(toc_title_for(&toc, "OEBPS/ch1.xhtml"), "Second");
    assert_eq!(toc_title_for(&toc, "OEBPS/ch2.xhtml"), "Other");
    assert_eq!(toc_title_for(&toc, "OEBPS/ch3.xhtml"), "");
    assert_eq!(toc_title_for(&Vec::new(), "OEBPS/ch1.xhtml"), "");
}

fn page(title: &str, section: Option<&str>, body: &str) -> String {
    let section = match section {
        Some(t) => format!("<section title=\"{}\">{}</section>", t, body),
        None => format!("<p>{}</p>", body),
    };
    format!(
        "<html><head><title>{}</title></head><body>{}</body></html>",
        title, section
    )
}

#[test]
fn test_loading_chapter_titles() {
    let labels = [
        "",
        "Alice’s Adventures in Wonderland",
        "CHAPTER I. Down the Rabbit-Hole",
        "CHAPTER II. The Pool of Tears",
        "CHAPTER III. A Caucus-Race and a Long Tale",
        "CHAPTER IV. The Rabbit Sends in a Little Bill",
        "CHAPTER V. Advice from a Caterpillar",
        "CHAPTER VI. Pig and Pepper",
        "CHAPTER VII. A Mad Tea-Party",
        "CHAPTER VIII. The Queen’s Croquet-Ground",
        "CHAPTER IX. The Mock Turtle’s Story",
        "CHAPTER X. The Lobster Quadrille",
        "CHAPTER XI. Who Stole the Tarts?",
        "CHAPTER XII. Alice’s Evidence",
        "THE FULL PROJECT GUTENBERG LICENSE",
    ];
    let book_title = "Alice’s Adventures in Wonderland | Project Gutenberg";
    let mut chapters = Vec::new();
    let mut toc = Vec::new();
    for (i, label) in labels.iter().enumerate() {
        let path = format!("OEBPS/part_{}.xhtml", i + 1);
        chapters.push(chapter(
            &format!("item{}", i + 1),
            &path,
            &page(book_title, None, "text"),
        ));
        if !label.is_empty() {
            toc.push(toc_entry(label, &format!("{}#anchor", path)));
        }
    }
    let titles = get_chapter_titles(&chapters, &toc);

    assert_eq!(titles.toc_titles[4], "CHAPTER III. A Caucus-Race and a Long Tale");
    assert_eq!(titles.toc_titles.len(), 15);
    assert_eq!(titles.toc_titles[0], "");
    for (i, label) in labels.iter().enumerate() {
        assert_eq!(titles.toc_titles[i], *label);
    }
    assert!(titles.title_tags_uniform);
    assert!(titles.section_tags_uniform);
    assert_eq!(titles.title_tag_titles.len(), 15);
}

#[test]
fn cover_title_is_left_out_and_sources_judged() {
    let chapters = vec![
        chapter("cover", "cover.xhtml", &page("Cover", Some("A"), "")),
        chapter("c1", "c1.xhtml", &page("Book", Some("One"), "x")),
        chapter("c2", "c2.xhtml", &page("Book", None, "y")),
    ];
    let toc = vec![toc_entry("Chapter One", "c1.xhtml")];
    let titles = get_chapter_titles(&chapters, &toc);
    assert_eq!(
        titles.toc_titles,
        vec!["".to_string(), "Chapter One".to_string(), "".to_string()]
    );
    assert_eq!(
        titles.title_tag_titles,
        vec!["Book".to_string(), "Book".to_string()]
    );
    assert!(titles.title_tags_uniform);
    assert_eq!(
        titles.section_tag_titles,
        vec!["A".to_string(), "One".to_string(), "".to_string()]
    );
    assert!(!titles.section_tags_uniform);
}

#[test]
fn differing_title_tags_are_not_uniform() {
    let chapters = vec![
        chapter("a", "a.xhtml", &page("First", None, "")),
        chapter("b", "b.xhtml", &page("Second", None, "")),
    ];
    let titles = get_chapter_titles(&chapters, &Vec::new());
    assert!(!titles.title_tags_uniform);
    assert!(titles.section_tags_uniform);
}

#[test]
fn only_the_first_title_element_counts() {
    let html = "<html><head><title>One</title><title>Two</title></head><body></body></html>";
    assert_eq!(get_title_from_title_tag(html), "One");
}

#[test]
fn every_chapter_title_tag_is_kept_in_spine_order() {
    let chapters = vec![
        chapter("cover", "cover.xhtml", &page("Cover", None, "")),
        chapter("c1", "c1.xhtml", &page("Book", None, "x")),
    ];
    let titles = get_chapter_titles(&chapters, &Vec::new());
    assert_eq!(
        titles.chapter_title_tags,
        vec!["Cover".to_string(), "Book".to_string()]
    );
    assert_eq!(titles.title_tag_titles, vec!["Book".to_string()]);
}
