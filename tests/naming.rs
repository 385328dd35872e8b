use epub2audiobook::naming::{chapter_file_stem, ordinal_prefix_of, sanitize_filename, title_to_use};

#[test]
fn test_sanitize_filename_empty_string() {
    assert_eq!("", sanitize_filename(""));
}

// Colons are not allowed in smb storage.
#[test]
fn test_sanitize_filename_replace_colon_with_underscore() {
    assert_eq!("/chapter__1", sanitize_filename("/chapter: 1"));
}

// Spaces are not great in some systems.
#[test]
fn test_sanitize_filename_replace_space_with_underscore() {
    assert_eq!("/chapter_1", sanitize_filename("/chapter 1"));
}

#[test]
fn sanitize_keeps_allowed_and_replaces_each_other_char() {
    assert_eq!(sanitize_filename("aZ09_.-/"), "aZ09_.-/");
    assert_eq!(sanitize_filename("Alice’s?"), "Alice_s_");
}

#[test]
fn ordinal_is_padded_to_four_digits() {
    assert_eq!(ordinal_prefix_of(0), "0000");
    assert_eq!(ordinal_prefix_of(1), "0001");
    assert_eq!(ordinal_prefix_of(15), "0015");
    assert_eq!(ordinal_prefix_of(999), "0999");
    assert_eq!(ordinal_prefix_of(1234), "1234");
    assert_eq!(ordinal_prefix_of(12345), "12345");
}

#[test]
fn short_titles_fall_back_to_identifier() {
    assert_eq!(title_to_use("IX", "item12"), "item12");
    assert_eq!(title_to_use("", "item12"), "item12");
    assert_eq!(title_to_use("Ten", "item12"), "Ten");
    assert_eq!(chapter_file_stem(3, "ab", "pg-header"), "0003_pg-header");
    assert_eq!(
        chapter_file_stem(5, "CHAPTER III. A Caucus-Race and a Long Tale", "item6"),
        "0005_CHAPTER_III._A_Caucus-Race_and_a_Long_Tale"
    );
}
