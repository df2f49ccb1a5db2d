use openlibrary::slug::{base_slug, collapse, slugify, SLUG_MAX_CHARS};

fn is_slug(s: &str) -> bool {
    s.chars().all(|c| c.is_ascii_digit() || c.is_ascii_lowercase() || c == '-')
        && !s.contains("--")
        && !s.starts_with('-')
        && !s.ends_with('-')
        && s.len() <= SLUG_MAX_CHARS
}

#[test]
fn slugs_are_transliterated_and_lowercased() {
    assert_eq!(slugify("Достоевский"), "dostoevskii");
    assert_eq!(slugify("Æneid"), "aeneid");
    assert_eq!(slugify("北亰"), "bei-jing");
    assert_eq!(slugify("The Left Hand of Darkness"), "the-left-hand-of-darkness");
}

#[test]
fn runs_collapse_to_one_hyphen() {
    assert_eq!(slugify("  Hello,   World!  "), "hello-world");
    assert_eq!(slugify("a--b__c"), "a-b-c");
    assert_eq!(slugify("don't"), "don-t");
    assert_eq!(collapse("..x..y.."), "x-y");
    assert_eq!(collapse("X1"), "X1");
}

#[test]
fn punctuation_only_text_has_an_empty_slug() {
    assert_eq!(slugify("?!…--"), "");
    assert_eq!(slugify(""), "");
    assert_eq!(collapse(" - "), "");
}

#[test]
fn slugs_are_clamped_without_a_trailing_hyphen() {
    let long = "x".repeat(250);
    assert_eq!(slugify(&long), "x".repeat(100));
    let cut_at_hyphen = format!("{} tail", "y".repeat(99));
    assert_eq!(slugify(&cut_at_hyphen), "y".repeat(99));
    let words = "ab ".repeat(60);
    assert_eq!(slugify(&words), format!("{}a", "ab-".repeat(33)));
}

#[test]
fn every_slug_has_the_shape_of_a_slug_and_is_its_own_slug() {
    for s in ["Hello, World!", "--a--", "ÀÉÎ õü", "🦄☣", "C++ & C#", "1984", "\u{1}\u{7f}é\n", "a-b c"] {
        let slug = slugify(s);
        assert!(is_slug(&slug), "{slug}");
        assert_eq!(slugify(&slug), slug);
    }
}

#[test]
fn numbered_slugs_are_no_slugs_of_texts() {
    for s in ["foo--2", "foo -- 2", "foo––2"] {
        assert_eq!(slugify(s), "foo-2");
    }
}

#[test]
fn the_id_is_the_fallback() {
    assert_eq!(base_slug("Ursula K. Le Guin", "OL31353A"), "ursula-k-le-guin");
    assert_eq!(base_slug("???", "OL31353A"), "ol31353a");
    assert_eq!(base_slug("", "ÄB1"), "äb1");
}
