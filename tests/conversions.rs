use ccase::{CaseOption, ConfigError, Options};

fn opt(s: &str) -> Option<String> {
    Some(s.to_string())
}

fn options(
    to: Option<String>,
    from: Option<String>,
    boundaries: Option<String>,
    pattern: Option<String>,
    delimiter: Option<String>,
) -> Options {
    Options { to, from, boundaries, pattern, delimiter }
}

fn run(o: Options, input: &str) -> Result<String, ConfigError> {
    o.converter().map(|c| c.convert(input))
}

#[test]
fn to_case() {
    assert_eq!(run(options(opt("snake"), None, None, None, None), "myVarName").unwrap(), "my_var_name");
    assert_eq!(run(options(opt("kebab"), None, None, None, None), "myVarName").unwrap(), "my-var-name");
    assert_eq!(run(options(opt("kebab"), None, None, None, None), "my Var Name").unwrap(), "my-var-name");
}

#[test]
fn from_case() {
    assert_eq!(
        run(options(opt("pascal"), opt("snake"), None, None, None), "my_var-name").unwrap(),
        "MyVar-name"
    );
    assert_eq!(
        run(options(opt("snake"), opt("pascal"), None, None, None), "myVar-name").unwrap(),
        "my_var-name"
    );
    assert_eq!(
        run(options(opt("snake"), opt("lower"), None, None, None), "my Var-name").unwrap(),
        "my_var-name"
    );
}

#[test]
fn to_required() {
    assert_eq!(
        run(options(None, None, None, None, None), "myvarname"),
        Err(ConfigError::MissingTargetSpecification)
    );
}

#[test]
fn pattern_only() {
    assert_eq!(run(options(None, None, None, opt("capital"), None), "MY_VAR_NAME").unwrap(), "MyVarName");
    assert_eq!(run(options(None, None, None, opt("Sentence"), None), "MY_VAR_NAME").unwrap(), "Myvarname");
}

#[test]
fn to_exclusive_with_pattern_delim() {
    assert_eq!(
        run(options(opt("snake"), None, None, opt("capital"), None), "MY_VAR_NAME"),
        Err(ConfigError::ConflictingTargetSpecification)
    );
    assert_eq!(
        run(options(opt("snake"), None, None, None, opt("-")), "MY_VAR_NAME"),
        Err(ConfigError::ConflictingTargetSpecification)
    );
}

#[test]
fn delimeter() {
    assert_eq!(run(options(None, None, None, opt("sentence"), opt(".")), "myVarName").unwrap(), "My.var.name");
}

#[test]
fn case_inputs_not_lower() {
    assert_eq!(run(options(opt("SNAKE"), None, None, None, None), "myVarName").unwrap(), "my_var_name");
    assert_eq!(run(options(opt("SnAkE"), None, None, None, None), "myVarName").unwrap(), "my_var_name");
    assert_eq!(run(options(opt("snake"), opt("KEBab"), None, None, None), "my-varName").unwrap(), "my_varname");
    assert_eq!(run(options(opt("snake"), opt("KEBAB"), None, None, None), "my-varName").unwrap(), "my_varname");
}

#[test]
fn invalid_case() {
    assert_eq!(
        run(options(opt("SNEK"), None, None, None, None), "myVarName"),
        Err(ConfigError::UnknownCaseName(CaseOption::To))
    );
    assert_eq!(
        run(options(opt("snake"), opt("SNEK"), None, None, None), "my-varName"),
        Err(ConfigError::UnknownCaseName(CaseOption::From))
    );
}

#[test]
fn invalid_pattern() {
    assert_eq!(
        run(options(None, None, None, opt("SENT"), None), "myVarName"),
        Err(ConfigError::UnknownPatternName)
    );
    assert_eq!(
        run(options(None, opt("snake"), None, opt("SENT"), None), "my-varName"),
        Err(ConfigError::UnknownPatternName)
    );
}

#[test]
fn empty_string_input() {
    assert_eq!(run(options(opt("snake"), None, None, None, None), "").unwrap(), "");
}

#[test]
fn boundaries() {
    assert_eq!(
        run(options(opt("snake"), None, opt("aA"), None, None), "myVar-Name-Longer").unwrap(),
        "my_var-name-longer"
    );
    assert_eq!(
        run(options(opt("snake"), None, opt("-"), None, None), "myVar-Name-Longer").unwrap(),
        "myvar_name_longer"
    );
}

#[test]
fn from_and_boundaries_exclusive() {
    assert_eq!(
        run(options(opt("snake"), opt("kebab"), opt("_"), None, None), "myVar-Name-Longer"),
        Err(ConfigError::ConflictingSourceSpecification)
    );
}

#[test]
fn main_multiple_inputs() {
    let conv = options(opt("snake"), None, None, None, None).converter().unwrap();
    let inputs = vec!["myVarName".to_string(), "anotherMultiWordToken".to_string()];
    assert_eq!(conv.convert_all(&inputs), vec!["my_var_name", "another_multi_word_token"]);

    let conv = options(opt("Pascal"), None, None, None, None).converter().unwrap();
    assert_eq!(conv.convert_all(&inputs), vec!["MyVarName", "AnotherMultiWordToken"]);
}

#[test]
fn pattern_with_custom_delimiter() {
    assert_eq!(
        run(options(None, None, None, opt("camel"), opt("++")), "my_var_name").unwrap(),
        "my++Var++Name"
    );
}

#[test]
fn help_contains_cases_and_patterns() {
    let help_text = format!("{}{}", ccase::list_cases(), ccase::list_patterns());
    assert!(help_text.contains("camel"));
    assert!(help_text.contains("noop"));
    assert!(help_text.contains("snake"));
    assert!(help_text.contains("title"));
    assert!(help_text.contains("train"));
}
