use ccase::boundary::{boundaries_from_chars, split};
use ccase::text::join_words;
use ccase::{Boundary, Converter, UserCase, UserPattern};

fn words(ws: &[&str]) -> Vec<String> {
    ws.iter().map(|w| w.to_string()).collect()
}

#[test]
fn each_case_keeps_its_own_example() {
    for c in UserCase::all() {
        let conv = Converter::new().from_case(c).to_case(c);
        assert_eq!(conv.convert(c.example()), c.example(), "{:?}", c);
    }
    let conv = Converter::new().from_case(UserCase::Snake).to_case(UserCase::Snake);
    assert_eq!(conv.convert("my_var_name"), "my_var_name");
}

#[test]
fn split_is_repeatable() {
    let bs = Boundary::all();
    assert_eq!(split("someHTTPServer_2x", &bs), split("someHTTPServer_2x", &bs));
}

#[test]
fn empty_input_gives_empty_output() {
    for c in UserCase::all() {
        assert_eq!(Converter::new().to_case(c).convert(""), "");
    }
    assert_eq!(Converter::new().convert(""), "");
    assert!(split("", &Boundary::all()).is_empty());
}

#[test]
fn acronym_stays_one_word() {
    assert_eq!(split("HTTPServer", &Boundary::transitions()), vec!["HTTP", "Server"]);
}

#[test]
fn default_target_snake() {
    assert_eq!(Converter::new().to_case(UserCase::Snake).convert("myVarName"), "my_var_name");
}

#[test]
fn split_drops_separators_and_empty_words() {
    assert_eq!(split("__a__b__", &vec![Boundary::Underscore]), vec!["a", "b"]);
    assert_eq!(split("one_two-three.four", &vec![Boundary::Underscore, Boundary::Hyphen]), vec!["one", "two", "three.four"]);
    assert_eq!(split("noBoundary", &vec![]), vec!["noBoundary"]);
}

#[test]
fn boundaries_shown_by_example() {
    assert_eq!(
        boundaries_from_chars("aA8a -"),
        vec![Boundary::Hyphen, Boundary::Space, Boundary::LowerUpper, Boundary::UpperDigit, Boundary::DigitLower]
    );
    assert_eq!(boundaries_from_chars("aA"), vec![Boundary::LowerUpper]);
    assert_eq!(boundaries_from_chars("xyz"), vec![]);
    assert_eq!(boundaries_from_chars(""), vec![]);
}

#[test]
fn each_pattern_recases() {
    let w = words(&["Case", "CONVERSION", "library"]);
    let apply = |p: UserPattern| p.apply(&w);
    assert_eq!(apply(UserPattern::Noop), vec!["Case", "CONVERSION", "library"]);
    assert_eq!(apply(UserPattern::Lowercase), vec!["case", "conversion", "library"]);
    assert_eq!(apply(UserPattern::Uppercase), vec!["CASE", "CONVERSION", "LIBRARY"]);
    assert_eq!(apply(UserPattern::Capital), vec!["Case", "Conversion", "Library"]);
    assert_eq!(apply(UserPattern::Camel), vec!["case", "Conversion", "Library"]);
    assert_eq!(apply(UserPattern::Sentence), vec!["Case", "conversion", "library"]);
    assert_eq!(apply(UserPattern::Toggle), vec!["cASE", "cONVERSION", "lIBRARY"]);
    assert_eq!(UserPattern::Alternating.apply(&words(&["Another", "Example"])), vec!["aNoThEr", "ExAmPlE"]);
    assert!(UserPattern::Camel.apply(&vec![]).is_empty());
}

#[test]
fn flat_splits_at_transitions() {
    let conv = Converter::new().from_case(UserCase::Flat).to_case(UserCase::Snake);
    assert_eq!(conv.convert("myvar2Name"), "myvar_2_name");
    let conv = Converter::new().from_case(UserCase::UpperFlat).to_case(UserCase::Kebab);
    assert_eq!(conv.convert("MYVAR2"), "myvar-2");
}

#[test]
fn empty_boundary_string_splits_nowhere() {
    let conv = ccase::Options { to: Some("snake".to_string()), from: None, boundaries: Some(String::new()), pattern: None, delimiter: None }
        .converter()
        .unwrap();
    assert_eq!(conv.convert("my_varName"), "my_varname");
}

#[test]
fn joining() {
    assert_eq!(join_words(&words(&["a", "b", "c"]), "::"), "a::b::c");
    assert_eq!(join_words(&words(&["a"]), "-"), "a");
    assert_eq!(join_words(&vec![], "-"), "");
}

#[test]
fn builder_settings() {
    let conv = Converter::new().set_pattern(UserPattern::Uppercase).set_delim(".").set_boundaries(&vec![Boundary::Space]);
    assert_eq!(conv.convert("a b_c"), "A.B_C");
    let conv = Converter::new().to_case(UserCase::Cobol);
    assert_eq!(conv.convert("my var2Name"), "MY-VAR-2-NAME");
    assert_eq!(Converter::new().to_case(UserCase::Constant).convert("myVarName"), "MY_VAR_NAME");
}

#[test]
fn sentence_with_dot_delimiter() {
    let conv = Converter::new().set_pattern(UserPattern::Sentence).set_delim(".");
    assert_eq!(conv.convert("myVarName"), "My.var.name");
}
