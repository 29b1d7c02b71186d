use maestro::text::Text;
use maestro::utils::{
    comma_separated, is_file_safe, make_file_safe, num_digits, split_article,
};
use std::borrow::Cow;

#[test]
fn zero_has_one_digit() {
    assert_eq!(num_digits(0), 1);
}

#[test]
fn one_has_one_digit() {
    assert_eq!(num_digits(1), 1);
}

#[test]
fn two_has_one_digit() {
    assert_eq!(num_digits(2), 1);
}

#[test]
fn nine_has_one_digit() {
    assert_eq!(num_digits(9), 1);
}

#[test]
fn ten_has_two_digits() {
    assert_eq!(num_digits(10), 2);
}

#[test]
fn eleven_has_two_digits() {
    assert_eq!(num_digits(11), 2);
}

#[test]
fn ninety_nine_has_two_digits() {
    assert_eq!(num_digits(99), 2);
}

#[test]
fn one_hundred_has_three_digits() {
    assert_eq!(num_digits(100), 3);
}

#[test]
fn one_hundred_and_one_has_three_digits() {
    assert_eq!(num_digits(101), 3);
}

#[test]
fn largest_number_has_twenty_digits() {
    assert_eq!(num_digits(usize::MAX), usize::MAX.to_string().len());
    assert_eq!(num_digits(12), 2);
    assert_eq!(num_digits(900), 3);
}

#[test]
fn comma_separated_empty_vec_is_empty() {
    let text = &[];
    assert_eq!(Cow::Owned::<Text>(Text::from("")), comma_separated(text));
}

#[test]
fn comma_separated_single_is_same() {
    let text = &[Text::from(("foo", "bar"))];
    assert_eq!(
        Cow::Borrowed(&Text::from(("foo", "bar"))),
        comma_separated(text)
    );
    assert!(matches!(comma_separated(text), Cow::Borrowed(_)));
}

#[test]
fn comma_separated_double_is_correct() {
    let text = &[Text::from(("foo", "bar")), Text::from("baz")];
    assert_eq!(
        Cow::Owned::<Text>(Text::from(("foo, baz", "bar, baz"))),
        comma_separated(text),
    );
}

#[test]
fn comma_separated_triple_is_correct() {
    let text = &[
        Text::from(("foo", "bar")),
        Text::from("baz"),
        Text::from(("quux", "other")),
    ];
    assert_eq!(
        Cow::Owned::<Text>(Text::from(("foo, baz, quux", "bar, baz, other"))),
        comma_separated(text),
    );
}

#[test]
fn comma_separated_doc_example() {
    let text = [Text::from("foo"), Text::from(("bar", "baar")), Text::from("baz")];
    assert_eq!(
        Cow::Owned::<Text>(Text::from(("foo, bar, baz", "foo, baar, baz"))),
        comma_separated(&text[..])
    );
}

#[test]
fn split_article_preserves_capitalization() {
    assert_eq!(split_article("THe titLe"), Some(("THe", "titLe")));
}

#[test]
fn split_article_only_removes_first_space() {
    assert_eq!(split_article("the   title"), Some(("the", "  title")));
}

#[test]
fn split_article_doesnt_split_if_no_space() {
    assert_eq!(split_article("the_title"), None);
}

#[test]
fn split_article_finds_each_article() {
    assert_eq!(split_article("A Thing"), Some(("A", "Thing")));
    assert_eq!(split_article("an apple"), Some(("an", "apple")));
    assert_eq!(split_article("AN "), Some(("AN", "")));
    assert_eq!(split_article("a "), Some(("a", "")));
    assert_eq!(split_article("Another Thing"), None);
    assert_eq!(split_article("a"), None);
    assert_eq!(split_article(""), None);
    assert_eq!(split_article("the"), None);
    assert_eq!(split_article("th"), None);
    assert_eq!(split_article("é thing"), None);
    assert_eq!(split_article("the é"), Some(("the", "é")));
}

#[test]
fn result_has_spaced_hyphen_instead_of_spaced_colon() {
    assert_eq!(make_file_safe("foo: bar"), Some(String::from("foo - bar")));
}

#[test]
fn result_has_unspaced_hyphen_instead_of_unspaced_colon() {
    assert_eq!(make_file_safe("foo:bar"), Some(String::from("foo-bar")));
}

#[test]
fn file_safe_string_needs_no_replacement() {
    assert_eq!(is_file_safe("foo: bar"), false);
    assert_eq!(is_file_safe("foo-bar"), true);
    assert_eq!(is_file_safe(""), true);
    assert_eq!(make_file_safe("foo-bar"), None);
    assert_eq!(make_file_safe(""), None);
}

#[test]
fn every_unsafe_character_is_replaced() {
    assert_eq!(
        make_file_safe("a<b>c:d\"e/f|g~h\\i*j?k"),
        Some(String::from("a[b]c-d'e-f-g-h_i_jk"))
    );
    assert_eq!(make_file_safe("end:"), Some(String::from("end-")));
    assert_eq!(make_file_safe("?"), Some(String::from("")));
    assert_eq!(make_file_safe(": :"), Some(String::from(" - -")));
    for c in ['<', '>', ':', '"', '/', '|', '~', '\\', '*', '?'] {
        let s = format!("x{}y", c);
        assert!(!is_file_safe(&s));
        let safe = make_file_safe(&s).unwrap();
        assert!(is_file_safe(&safe));
    }
}
