use anime_bot::command::{classify, interpret, Command};
use anime_bot::text::{chars_of, decimal_string, is_whitespace, parse_u32, trim_range};

fn parse(s: &str) -> Option<u32> {
    let v = chars_of(s);
    parse_u32(&v, 0, v.len())
}

#[test]
fn help_is_recognised() {
    assert_eq!(classify("!help"), Command::Help);
}

#[test]
fn help_with_a_suffix_is_ignored() {
    assert_eq!(classify("!helpme"), Command::Ignore);
    assert_eq!(classify("!help me"), Command::Ignore);
}

#[test]
fn details_take_precedence_over_search() {
    assert_eq!(classify("!anime details 5"), Command::DetailsById(5));
}

#[test]
fn recommendations_take_precedence_over_search() {
    assert_eq!(classify("!anime recommendations 16498"), Command::RecommendationsById(16498));
}

#[test]
fn details_without_argument_are_invalid() {
    assert_eq!(classify("!anime details "), Command::InvalidDetails);
    assert_eq!(classify("!anime details    "), Command::InvalidDetails);
    assert_eq!(classify("!anime details \t\n"), Command::InvalidDetails);
}

#[test]
fn recommendations_without_argument_are_invalid() {
    assert_eq!(classify("!anime recommendations "), Command::InvalidRecommendations);
    assert_eq!(classify("!anime recommendations   "), Command::InvalidRecommendations);
}

#[test]
fn details_with_a_word_have_an_invalid_id() {
    assert_eq!(classify("!anime details abc"), Command::InvalidId);
    assert_eq!(classify("!anime details 12abc"), Command::InvalidId);
    assert_eq!(classify("!anime details -5"), Command::InvalidId);
    assert_eq!(classify("!anime details 5.0"), Command::InvalidId);
    assert_eq!(classify("!anime details +"), Command::InvalidId);
}

#[test]
fn details_with_two_arguments_have_an_invalid_id() {
    assert_eq!(classify("!anime details 5 6"), Command::InvalidId);
}

#[test]
fn recommendations_with_a_word_have_an_invalid_id() {
    assert_eq!(classify("!anime recommendations lain"), Command::InvalidId);
}

#[test]
fn identifier_may_be_surrounded_by_white_space() {
    assert_eq!(classify("!anime details   42  "), Command::DetailsById(42));
    assert_eq!(classify("!anime recommendations \t7"), Command::RecommendationsById(7));
}

#[test]
fn identifier_bounds() {
    assert_eq!(classify("!anime details 0"), Command::DetailsById(0));
    assert_eq!(classify("!anime details 4294967295"), Command::DetailsById(u32::MAX));
    assert_eq!(classify("!anime details 4294967296"), Command::InvalidId);
    assert_eq!(classify("!anime details 99999999999999999999999"), Command::InvalidId);
    assert_eq!(classify("!anime details 0005"), Command::DetailsById(5));
    assert_eq!(classify("!anime details +5"), Command::DetailsById(5));
}

#[test]
fn search_keeps_the_trimmed_remainder() {
    assert_eq!(
        classify("!anime Attack on Titan"),
        Command::SearchByName("Attack on Titan".to_string())
    );
    assert_eq!(classify("!anime    x  "), Command::SearchByName("x".to_string()));
    assert_eq!(classify("!anime details"), Command::SearchByName("details".to_string()));
    assert_eq!(
        classify("!anime  details 5"),
        Command::SearchByName("details 5".to_string())
    );
}

#[test]
fn search_keeps_characters_outside_ascii() {
    assert_eq!(
        classify("!anime \u{9032}\u{6483}\u{306e}\u{5de8}\u{4eba} "),
        Command::SearchByName("\u{9032}\u{6483}\u{306e}\u{5de8}\u{4eba}".to_string())
    );
}

#[test]
fn search_strips_the_prefix_once() {
    assert_eq!(
        classify("!anime !anime foo"),
        Command::SearchByName("!anime foo".to_string())
    );
}

#[test]
fn search_without_a_name_is_invalid() {
    assert_eq!(classify("!anime "), Command::InvalidSearch);
    assert_eq!(classify("!anime     "), Command::InvalidSearch);
}

#[test]
fn fixed_subject_shortcuts() {
    assert_eq!(classify("!lain"), Command::FixedSubjectDetails);
    assert_eq!(classify("!lain recommendations"), Command::FixedSubjectRecommendations);
    assert_eq!(classify("!lain details"), Command::Ignore);
    assert_eq!(classify("!lain "), Command::Ignore);
}

#[test]
fn other_text_is_ignored() {
    assert_eq!(classify(""), Command::Ignore);
    assert_eq!(classify("hello"), Command::Ignore);
    assert_eq!(classify("!anime"), Command::Ignore);
    assert_eq!(classify("!animedetails 5"), Command::Ignore);
    assert_eq!(classify(" !help"), Command::Ignore);
    assert_eq!(classify("!HELP"), Command::Ignore);
}

#[test]
fn messages_are_trimmed_before_they_are_classified() {
    assert_eq!(interpret("  !help \n", true), Command::Help);
    assert_eq!(interpret("\t!lain  ", true), Command::FixedSubjectDetails);
    assert_eq!(interpret(" !anime details 5 ", true), Command::DetailsById(5));
    assert_eq!(interpret("!anime details ", true), Command::SearchByName("details".to_string()));
    assert_eq!(interpret("!anime ", true), Command::Ignore);
    assert_eq!(interpret("   ", true), Command::Ignore);
}

#[test]
fn messages_of_bots_are_ignored() {
    assert_eq!(interpret("!help", false), Command::Ignore);
    assert_eq!(interpret("!anime Attack on Titan", false), Command::Ignore);
    assert_eq!(interpret("!lain", false), Command::Ignore);
    assert_eq!(interpret("!anime details 5", false), Command::Ignore);
}

#[test]
fn decimal_notation() {
    assert_eq!(decimal_string(0), "0");
    assert_eq!(decimal_string(7), "7");
    assert_eq!(decimal_string(10), "10");
    assert_eq!(decimal_string(339), "339");
    assert_eq!(decimal_string(16498), "16498");
    assert_eq!(decimal_string(u32::MAX), "4294967295");
}

#[test]
fn parsing_reads_decimal_notation_back() {
    for n in [0u32, 1, 9, 10, 99, 100, 339, 16498, 1_000_000, u32::MAX - 1, u32::MAX] {
        assert_eq!(parse(&decimal_string(n)), Some(n));
    }
}

#[test]
fn parsing_rejects_what_is_no_number() {
    assert_eq!(parse(""), None);
    assert_eq!(parse("+"), None);
    assert_eq!(parse("-"), None);
    assert_eq!(parse("-1"), None);
    assert_eq!(parse("1 "), None);
    assert_eq!(parse(" 1"), None);
    assert_eq!(parse("++1"), None);
    assert_eq!(parse("1+"), None);
    assert_eq!(parse("\u{661}\u{662}"), None);
    assert_eq!(parse("4294967296"), None);
    assert_eq!(parse("+12"), Some(12));
    assert_eq!(parse("000"), Some(0));
}

#[test]
fn parsing_agrees_with_the_standard_library() {
    for s in ["0", "5", "+5", "-5", "", "+", "007", "4294967295", "4294967296", "12a", "a12", "1_0"] {
        assert_eq!(parse(s), s.parse::<u32>().ok());
    }
}

#[test]
fn parsing_a_part_of_a_text() {
    let v = chars_of("ab123cd");
    assert_eq!(parse_u32(&v, 2, 5), Some(123));
    assert_eq!(parse_u32(&v, 2, 2), None);
    assert_eq!(parse_u32(&v, 1, 5), None);
}

#[test]
fn white_space_agrees_with_the_standard_library() {
    let mut n: u32 = 0;
    while n <= 0x3100 {
        if let Some(c) = char::from_u32(n) {
            assert_eq!(is_whitespace(c), c.is_whitespace());
        }
        n += 1;
    }
    assert!(!is_whitespace('\u{200B}'));
    assert!(!is_whitespace('\u{FEFF}'));
}

#[test]
fn trimming_bounds() {
    let v = chars_of("  ab c \t");
    assert_eq!(trim_range(&v, 0, v.len()), (2, 6));
    let blank = chars_of(" \n ");
    let (a, b) = trim_range(&blank, 0, blank.len());
    assert_eq!(a, b);
    let none = chars_of("");
    assert_eq!(trim_range(&none, 0, 0), (0, 0));
    let tight = chars_of("abc");
    assert_eq!(trim_range(&tight, 0, 3), (0, 3));
    assert_eq!(trim_range(&v, 3, 7), (3, 6));
}

#[test]
fn trimming_agrees_with_the_standard_library() {
    for s in ["", " ", "a", " a", "a ", "  a b  ", "\u{3000}x\u{a0}", "\n\t!help\r\n"] {
        let v = chars_of(s);
        let (a, b) = trim_range(&v, 0, v.len());
        let got: String = v[a..b].iter().collect();
        assert_eq!(got, s.trim());
    }
}
