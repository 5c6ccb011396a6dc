use fontship::normalize::{format_font_version, locale_to_language, pname};

#[test]
fn pname_folds_separators_to_word_breaks() {
    assert_eq!(pname("my-font_name"), "MyFontName");
}

#[test]
fn pname_title_cases_spaced_words() {
    assert_eq!(pname("already Title"), "AlreadyTitle");
}

#[test]
fn pname_lowercases_word_tails() {
    assert_eq!(pname("SHOUTY NAME"), "ShoutyName");
    assert_eq!(pname("mixedCase word"), "MixedCaseWord");
}

#[test]
fn pname_breaks_words_at_case_transitions() {
    assert_eq!(pname("mixedCase"), "MixedCase");
    assert_eq!(pname("myFont name"), "MyFontName");
}

#[test]
fn pname_is_idempotent_on_ordinary_names() {
    let once = pname("my-font_name");
    assert_eq!(once, "MyFontName");
    assert_eq!(pname(&once), once);
    let once = pname("my font");
    assert_eq!(once, "MyFont");
    assert_eq!(pname(&once), once);
    let once = pname("mixedCase word");
    assert_eq!(pname(&once), once);
    let once = pname("SHOUTY NAME");
    assert_eq!(pname(&once), once);
}

#[test]
fn pname_folds_adjacent_single_letter_words() {
    // Adjacent single-letter words canonicalize to consecutive capitals,
    // which carry no lowercase-to-uppercase seam: the one name shape on
    // which a second normalization folds the result further.
    assert_eq!(pname("a b"), "AB");
    assert_eq!(pname("AB"), "Ab");
}

#[test]
fn pname_empty_input_gives_empty_name() {
    assert_eq!(pname(""), "");
    assert_eq!(pname("-_ "), "");
}

#[test]
fn pname_collapses_repeated_separators() {
    assert_eq!(pname("a--b__c  d"), "ABCD");
    assert_eq!(pname("\tfont\nname\r"), "FontName");
}

#[test]
fn format_font_version_strips_revision_suffix() {
    assert_eq!(format_font_version(String::from("1.002-r3")), "1.002");
}

#[test]
fn format_font_version_keeps_plain_version() {
    assert_eq!(format_font_version(String::from("1.002")), "1.002");
}

#[test]
fn format_font_version_is_idempotent_on_samples() {
    let once = format_font_version(String::from("2.1-r10-r2"));
    assert_eq!(once, "2.1");
    assert_eq!(format_font_version(once.clone()), once);
    let plain = format_font_version(String::from("7"));
    assert_eq!(format_font_version(plain.clone()), plain);
}

#[test]
fn format_font_version_cuts_at_first_marker() {
    assert_eq!(format_font_version(String::from("a-rb-rc")), "a");
    assert_eq!(format_font_version(String::from("-r3")), "");
}

#[test]
fn format_font_version_handles_short_strings() {
    assert_eq!(format_font_version(String::from("")), "");
    assert_eq!(format_font_version(String::from("-")), "-");
    assert_eq!(format_font_version(String::from("-r")), "");
    assert_eq!(format_font_version(String::from("r-")), "r-");
}

#[test]
fn locale_to_language_takes_language_subtag() {
    assert_eq!(locale_to_language(String::from("en-US")), "en");
}

#[test]
fn locale_to_language_folds_posix_c_locale() {
    assert_eq!(locale_to_language(String::from("C")), "en");
    assert_eq!(locale_to_language(String::from("c")), "en");
}

#[test]
fn locale_to_language_cuts_encoding_and_region() {
    assert_eq!(locale_to_language(String::from("fr_FR.UTF-8")), "fr");
    assert_eq!(locale_to_language(String::from("tr.ISO8859-9")), "tr");
}

#[test]
fn locale_to_language_lowercases_bare_tags() {
    assert_eq!(locale_to_language(String::from("FR")), "fr");
    assert_eq!(locale_to_language(String::from("de")), "de");
}

#[test]
fn locale_to_language_only_folds_exact_c() {
    assert_eq!(locale_to_language(String::from("cs-CZ")), "cs");
    assert_eq!(locale_to_language(String::from("ca")), "ca");
}

#[test]
fn locale_to_language_empty_input_gives_empty_output() {
    assert_eq!(locale_to_language(String::from("")), "");
    assert_eq!(locale_to_language(String::from("-US")), "");
}
