use devstats::error::ConfigError;
use devstats::pattern::{compile, matcher_from};

#[test]
fn compile_keeps_the_pattern_and_matches_by_it() {
    let m = compile("V", "^bot-[0-9]+$").unwrap();
    assert_eq!(m.pattern, "^bot-[0-9]+$");
    assert_eq!(m.regex.as_str(), "^bot-[0-9]+$");
    assert!(m.regex.is_match("bot-12"));
    assert!(!m.regex.is_match("robot-12"));
}

#[test]
fn compile_names_the_variable_of_a_bad_pattern() {
    assert_eq!(
        compile("GHA2DB_ACTORS_ALLOW", "foo(bar").err(),
        Some(ConfigError::MalformedValue {
            variable: "GHA2DB_ACTORS_ALLOW".to_string(),
            value: "foo(bar".to_string(),
            target: "regex".to_string(),
        })
    );
}

#[test]
fn matcher_from_follows_the_outcome_of_the_compiler() {
    let m = matcher_from("V", "a+", regex::Regex::new("a+")).unwrap();
    assert_eq!(m.pattern, "a+");
    assert!(m.regex.is_match("caab"));
    assert_eq!(
        matcher_from("V", "(", regex::Regex::new("(")).err(),
        Some(ConfigError::MalformedValue {
            variable: "V".to_string(),
            value: "(".to_string(),
            target: "regex".to_string(),
        })
    );
}
