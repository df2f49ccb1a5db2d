use openlibrary::json::Json;
use openlibrary::model::{
    author_role_keys, extract_year, identifiers, int_array, key_ref_array, lenient_int,
    lenient_string, ref_key, short_key, string_array, text_or_value, value_to_string,
};
use openlibrary::model::{Author, AuthorFields, Edition, EditionFields, Identifiers, Work, WorkFields};

fn text(s: &str) -> Json {
    Json::Text(s.to_string())
}

fn whole(n: i64) -> Json {
    Json::Number { text: n.to_string(), int: Some(n) }
}

fn fraction(s: &str) -> Json {
    Json::Number { text: s.to_string(), int: None }
}

fn object(members: Vec<(&str, Json)>) -> Json {
    Json::Object(members.into_iter().map(|(k, v)| (k.to_string(), v)).collect())
}

fn some(s: &str) -> Option<String> {
    Some(s.to_string())
}

#[test]
fn short_keys_have_no_prefix() {
    assert_eq!(short_key("/authors/OL23919A"), "OL23919A");
    assert_eq!(short_key("OL23919A"), "OL23919A");
    assert_eq!(short_key("/works/"), "");
    assert_eq!(short_key(""), "");
    assert_eq!(short_key(short_key("/a/b/c")), "c");
}

#[test]
fn years_in_free_form_dates() {
    assert_eq!(extract_year("March 2005"), Some(2005));
    assert_eq!(extract_year("1995-03-01"), Some(1995));
    assert_eq!(extract_year("19??"), None);
    assert_eq!(extract_year(""), None);
    assert_eq!(extract_year("12345"), None);
    assert_eq!(extract_year("0999 then 2101 then 1000"), Some(1000));
    assert_eq!(extract_year("2100"), Some(2100));
    assert_eq!(extract_year("c1987."), Some(1987));
    assert_eq!(extract_year("1899 or 1900"), Some(1899));
    assert_eq!(extract_year("año 1492é"), Some(1492));
    assert_eq!(extract_year("199"), None);
}

#[test]
fn strings_are_trimmed_and_numbers_tolerated() {
    assert_eq!(value_to_string(&text("  a b \n")), some("a b"));
    assert_eq!(value_to_string(&text(" \t")), None);
    assert_eq!(lenient_string(&whole(7)), some("7"));
    assert_eq!(lenient_string(&fraction("1.5")), some("1.5"));
    assert_eq!(lenient_string(&Json::Null), None);
    assert_eq!(lenient_string(&Json::Bool(true)), None);
    assert_eq!(lenient_string(&Json::Array(vec![text("a")])), None);
}

#[test]
fn text_objects_are_unwrapped() {
    let v = object(vec![("type", text("/type/text")), ("value", text(" A life. "))]);
    assert_eq!(text_or_value(&v), some("A life."));
    assert_eq!(text_or_value(&text("plain")), some("plain"));
    assert_eq!(text_or_value(&object(vec![("type", text("x"))])), None);
    assert_eq!(text_or_value(&object(vec![("value", Json::Null)])), None);
    assert_eq!(text_or_value(&object(vec![("value", whole(3))])), some("3"));
}

#[test]
fn integers_may_be_strings() {
    assert_eq!(lenient_int(&whole(312)), Some(312));
    assert_eq!(lenient_int(&text(" 312 ")), Some(312));
    assert_eq!(lenient_int(&text("-3")), Some(-3));
    assert_eq!(lenient_int(&text("312 p.")), None);
    assert_eq!(lenient_int(&whole(2147483648)), None);
    assert_eq!(lenient_int(&whole(-2147483648)), Some(i32::MIN));
    assert_eq!(lenient_int(&fraction("3.5")), None);
    assert_eq!(lenient_int(&Json::Null), None);
}

#[test]
fn arrays_lose_their_junk() {
    let v = Json::Array(vec![text(" a "), Json::Null, text(""), whole(1), Json::Bool(false), text("b")]);
    assert_eq!(string_array(&v), vec!["a", "1", "b"]);
    assert!(string_array(&text("a")).is_empty());
    assert!(string_array(&Json::Null).is_empty());
}

#[test]
fn image_ids_are_positive() {
    let v = Json::Array(vec![whole(-1), whole(0), whole(42), text("7"), whole(3_000_000_000), fraction("1.0"), whole(9)]);
    assert_eq!(int_array(&v), vec![42, 9]);
    assert!(int_array(&whole(42)).is_empty());
}

#[test]
fn references_are_strings_or_objects() {
    assert_eq!(ref_key(&text("/works/OL1W")), some("OL1W"));
    assert_eq!(ref_key(&object(vec![("key", text("/works/OL1W"))])), some("OL1W"));
    assert_eq!(ref_key(&object(vec![("key", object(vec![("key", text("OL2W"))]))])), some("OL2W"));
    assert_eq!(ref_key(&object(vec![("id", text("OL1W"))])), None);
    assert_eq!(ref_key(&whole(3)), None);
    assert_eq!(ref_key(&text("")), some(""));
    let v = Json::Array(vec![object(vec![("key", text("/works/OL1W"))]), Json::Null, text("/works/OL2W")]);
    assert_eq!(key_ref_array(&v), vec!["OL1W", "OL2W"]);
}

#[test]
fn work_authors_come_in_several_shapes() {
    let v = Json::Array(vec![
        object(vec![("type", text("x")), ("author", object(vec![("key", text("/authors/OL1A"))]))]),
        object(vec![("author", text("/authors/OL2A"))]),
        object(vec![("author", Json::Null), ("key", text("/authors/OL3A"))]),
        object(vec![("key", text("/authors/OL4A"))]),
        text("/authors/OL5A"),
        object(vec![("role", text("editor"))]),
        whole(6),
    ]);
    assert_eq!(author_role_keys(&v), vec!["OL1A", "OL2A", "OL3A", "OL4A", "OL5A"]);
}

#[test]
fn external_ids_are_first_entries() {
    let v = object(vec![
        ("amazon", Json::Array(vec![text(" "), Json::Null, text("B000"), text("B001")])),
        ("goodreads", text("123")),
        ("google", Json::Array(vec![])),
    ]);
    let ids = identifiers(&v);
    assert_eq!(ids.amazon, some("B000"));
    assert_eq!(ids.goodreads, some("123"));
    assert_eq!(ids.google, None);
    let none = identifiers(&text("amazon"));
    assert_eq!(none.amazon, None);
    assert_eq!(none.goodreads, None);
    assert_eq!(none.google, None);
}

#[test]
fn author_records() {
    let a = Author::from_fields(&AuthorFields {
        name: text(" Ann "),
        personal_name: Json::Null,
        birth_date: whole(1950),
        death_date: Json::Bool(false),
        bio: object(vec![("value", text("Bio"))]),
        photos: Json::Array(vec![whole(-1), whole(5)]),
    });
    assert_eq!(a.name, some("Ann"));
    assert_eq!(a.personal_name, None);
    assert_eq!(a.birth_date, some("1950"));
    assert_eq!(a.death_date, None);
    assert_eq!(a.bio, some("Bio"));
    assert_eq!(a.photos, vec![5]);
}

#[test]
fn work_records() {
    let w = Work::from_fields(&WorkFields {
        title: text("T"),
        subtitle: text("S"),
        description: text("D"),
        first_publish_date: text("1999"),
        covers: Json::Array(vec![whole(8)]),
        subjects: Json::Array(vec![text("a"), text("b")]),
        author_keys: Json::Array(vec![text("/authors/OL1A")]),
    });
    assert_eq!(w.title, some("T"));
    assert_eq!(w.subtitle, some("S"));
    assert_eq!(w.description, some("D"));
    assert_eq!(w.first_publish_date, some("1999"));
    assert_eq!(w.covers, vec![8]);
    assert_eq!(w.subjects, vec!["a", "b"]);
    assert_eq!(w.author_keys, vec!["OL1A"]);
}

#[test]
fn edition_records() {
    let e = Edition::from_fields(&EditionFields {
        title: text("T"),
        subtitle: text("S"),
        work_keys: Json::Array(vec![object(vec![("key", text("/works/OL1W"))])]),
        publishers: Json::Array(vec![text("P")]),
        publish_date: text("May 2001"),
        number_of_pages: text("12"),
        isbn_10: Json::Array(vec![text("1")]),
        isbn_13: Json::Array(vec![text("2")]),
        covers: Json::Array(vec![whole(3)]),
        languages: Json::Array(vec![object(vec![("key", text("/languages/eng"))])]),
        physical_format: text("Paperback"),
        series: Json::Array(vec![text("Ser")]),
        edition_name: text("2nd"),
        ocaid: text("oca"),
        identifiers: object(vec![("google", text("g"))]),
    });
    assert_eq!(e.title, some("T"));
    assert_eq!(e.subtitle, some("S"));
    assert_eq!(e.work_keys, vec!["OL1W"]);
    assert_eq!(e.publishers, vec!["P"]);
    assert_eq!(e.publish_date, some("May 2001"));
    assert_eq!(e.publish_year(), Some(2001));
    assert_eq!(e.number_of_pages, Some(12));
    assert_eq!(e.isbn_10, vec!["1"]);
    assert_eq!(e.isbn_13, vec!["2"]);
    assert_eq!(e.covers, vec![3]);
    assert_eq!(e.languages, vec!["eng"]);
    assert_eq!(e.physical_format, some("Paperback"));
    assert_eq!(e.series, vec!["Ser"]);
    assert_eq!(e.edition_name, some("2nd"));
    assert_eq!(e.ocaid, some("oca"));
    assert_eq!(e.identifiers.google, some("g"));
}

#[test]
fn defaults_are_empty() {
    assert!(Author::default().name.is_none() && Author::default().photos.is_empty());
    assert!(Work::default().title.is_none() && Work::default().subjects.is_empty());
    assert!(Identifiers::default().amazon.is_none());
    let e = Edition::default();
    assert!(e.title.is_none() && e.work_keys.is_empty() && e.number_of_pages.is_none());
    assert_eq!(e.publish_year(), None);
}

#[test]
fn members_are_looked_up_by_key() {
    let v = object(vec![("a", whole(1)), ("b", whole(2))]);
    assert!(matches!(v.get("b"), Some(Json::Number { int: Some(2), .. })));
    assert!(v.get("c").is_none());
    assert!(text("a").get("a").is_none());
}
