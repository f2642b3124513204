use ccase::{Boundary, UserCase, UserPattern};

#[test]
fn unknown_case_parse() {
    assert!("snek".parse::<UserCase>().is_err());
}

#[test]
fn unknown_pattern_parse() {
    assert!("sent".parse::<UserPattern>().is_err());
}

#[test]
fn every_case_name_parses_back() {
    for c in UserCase::all() {
        assert_eq!(c.short_name().parse::<UserCase>(), Ok(c));
        assert_eq!(UserCase::from_name(&c.short_name().to_uppercase()), Some(c));
    }
    assert_eq!(UserCase::all().len(), 19);
}

#[test]
fn every_pattern_name_parses_back() {
    for p in UserPattern::all() {
        assert_eq!(p.short_name().parse::<UserPattern>(), Ok(p));
    }
    assert_eq!(UserPattern::all().len(), 8);
}

#[test]
fn multi_word_names() {
    assert_eq!(UserCase::from_name("UpperSnake"), Some(UserCase::UpperSnake));
    assert_eq!(UserCase::from_name("upper_snake"), None);
    assert_eq!(UserCase::from_name("snak"), None);
    assert_eq!(UserCase::from_name(""), None);
    assert_eq!(UserPattern::from_name("LOWERCASE"), Some(UserPattern::Lowercase));
}

#[test]
fn examples_and_catalog() {
    assert_eq!(UserCase::Camel.example(), "camelCase");
    assert_eq!(UserCase::Alternating.example(), "aLtErNaTiNg CaSe");
    assert_eq!(UserPattern::Sentence.example(), "Capital, lower, lower, ...");
    assert_eq!(UserCase::Train.delim(), "-");
    assert_eq!(UserCase::Ada.pattern(), UserPattern::Capital);
    assert_eq!(UserCase::Flat.boundaries(), Boundary::transitions());
    assert_eq!(UserCase::UpperFlat.boundaries(), Boundary::transitions());
    assert_eq!(UserCase::Lower.boundaries(), vec![Boundary::Space]);
}

#[test]
fn listing_line_layout() {
    let cases = ccase::list_cases();
    let first = cases.lines().next().unwrap();
    assert_eq!(first, "            \x1b[1msnake\x1b[0m  snake_case");
    assert_eq!(cases.lines().count(), 19);
    let patterns = ccase::list_patterns();
    assert!(patterns.starts_with("      \x1b[1malternating\x1b[0m  aLtErNaTiNg, aLtErNaTiNg, ..."));
    assert!(patterns.ends_with("\n"));
}
