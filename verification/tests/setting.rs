use devstats::datetime::DateTime;
use devstats::duration::Duration;
use devstats::env::Env;
use devstats::error::ConfigError;
use devstats::setting::{
    ensure_colon, ensure_slash, env_date_time, env_duration, env_flag, env_names, env_number_or,
    env_numbers, env_overrides, env_pattern, env_periods, env_present, env_run_limits,
    env_strings, env_text, guarded_number, keep_first_char, spaces_to_commas,
};
use devstats::text::join;

fn env_of(pairs: &[(&str, &str)]) -> Env {
    Env { vars: pairs.iter().map(|(k, v)| (k.to_string(), v.to_string())).collect() }
}

fn malformed(variable: &str, value: &str, target: &str) -> ConfigError {
    ConfigError::MalformedValue {
        variable: variable.to_string(),
        value: value.to_string(),
        target: target.to_string(),
    }
}

#[test]
fn ensure_slash_adds_one_where_it_is_missing() {
    assert_eq!(ensure_slash("/data".to_string()), "/data/");
    assert_eq!(ensure_slash("/data/".to_string()), "/data/");
    assert_eq!(ensure_slash("/".to_string()), "/");
    assert_eq!(ensure_slash("".to_string()), "/");
    assert_eq!(ensure_slash("a//".to_string()), "a//");
}

#[test]
fn ensure_colon_adds_one_where_it_is_missing() {
    assert_eq!(ensure_colon("1982".to_string()), ":1982");
    assert_eq!(ensure_colon(":1982".to_string()), ":1982");
    assert_eq!(ensure_colon("".to_string()), ":");
}

#[test]
fn keep_first_char_cuts_longer_texts() {
    assert_eq!(keep_first_char("yes".to_string()), "y");
    assert_eq!(keep_first_char("y".to_string()), "y");
    assert_eq!(keep_first_char("".to_string()), "");
    assert_eq!(keep_first_char("\u{e9}t\u{e9}".to_string()), "\u{e9}");
}

#[test]
fn join_puts_the_separator_between_pieces() {
    assert_eq!(join(&vec!["a".to_string(), "b".to_string(), "c".to_string()], ","), "a,b,c");
    assert_eq!(join(&vec!["a".to_string()], ","), "a");
    assert_eq!(join(&vec![], ","), "");
    assert_eq!(join(&vec!["".to_string(), "".to_string()], "--"), "--");
}

#[test]
fn spaces_become_commas() {
    assert_eq!(spaces_to_commas("a b c"), "a,b,c");
    assert_eq!(spaces_to_commas("a  b"), "a,,b");
    assert_eq!(spaces_to_commas("abc"), "abc");
    assert_eq!(spaces_to_commas(""), "");
    assert_eq!(spaces_to_commas(" a "), ",a,");
}

#[test]
fn flag_is_on_for_any_value_that_is_not_blank() {
    let env = env_of(&[("A", "1"), ("B", "0"), ("C", " "), ("D", "")]);
    assert!(env_flag(&env, "A"));
    assert!(env_flag(&env, "B"));
    assert!(!env_flag(&env, "C"));
    assert!(!env_flag(&env, "D"));
    assert!(!env_flag(&env, "E"));
}

#[test]
fn present_value_is_untrimmed() {
    let env = env_of(&[("A", " x "), ("B", "  ")]);
    assert_eq!(env_present(&env, "A"), Some(" x "));
    assert_eq!(env_present(&env, "B"), None);
    assert_eq!(env_present(&env, "C"), None);
    assert_eq!(env_text(&env, "A", "d"), "x");
    assert_eq!(env_text(&env, "B", "d"), "d");
}

#[test]
fn number_or_stores_the_value_as_it_is() {
    let env = env_of(&[("A", "-3"), ("B", "abc"), ("C", " "), ("D", "0"), ("E", " 4")]);
    assert_eq!(env_number_or::<i8>(&env, "A", 9), Ok(-3));
    assert_eq!(env_number_or::<i8>(&env, "B", 9), Err(malformed("B", "abc", "i8")));
    assert_eq!(env_number_or::<i8>(&env, "C", 9), Ok(9));
    assert_eq!(env_number_or::<i8>(&env, "D", 9), Ok(0));
    assert_eq!(env_number_or::<i8>(&env, "E", 9), Err(malformed("E", " 4", "i8")));
    assert_eq!(env_number_or::<i8>(&env, "F", 9), Ok(9));
}

#[test]
fn guarded_number_keeps_the_default_below_the_guard() {
    let env = env_of(&[("A", "-5"), ("B", "0"), ("C", "7"), ("D", "x"), ("E", "40000")]);
    assert_eq!(guarded_number::<i16>(&env, "A", 0, 1), Ok(1));
    assert_eq!(guarded_number::<i16>(&env, "B", 0, 1), Ok(0));
    assert_eq!(guarded_number::<i16>(&env, "B", 1, 6), Ok(6));
    assert_eq!(guarded_number::<i16>(&env, "C", 1, 6), Ok(7));
    assert_eq!(guarded_number::<i16>(&env, "D", 0, 1), Err(malformed("D", "x", "i16")));
    assert_eq!(guarded_number::<i16>(&env, "E", 0, 1), Err(malformed("E", "40000", "i16")));
    assert_eq!(guarded_number::<i16>(&env, "F", 0, 1), Ok(1));
}

#[test]
fn lists_fall_back_to_their_defaults() {
    let env = env_of(&[("A", "x,y"), ("B", " "), ("N", "1,2"), ("M", "1,b")]);
    assert_eq!(env_strings(&env, "A", vec!["d".to_string()]), vec!["x", "y"]);
    assert_eq!(env_strings(&env, "B", vec!["d".to_string()]), vec!["d"]);
    assert_eq!(env_strings(&env, "C", vec!["d".to_string()]), vec!["d"]);
    assert_eq!(env_numbers::<i16>(&env, "N", vec![0]), Ok(vec![1, 2]));
    assert_eq!(env_numbers::<i16>(&env, "B", vec![0]), Ok(vec![0]));
    assert_eq!(env_numbers::<i16>(&env, "M", vec![0]), Err(malformed("M", "b", "i16")));
}

#[test]
fn keyed_collections_are_empty_by_default() {
    let env = env_of(&[("S", "a,b"), ("O", "+a"), ("P", "m:t"), ("R", "x:1s:0"), ("B", " ")]);
    assert_eq!(env_names(&env, "S").names, vec!["a", "b"]);
    assert_eq!(env_names(&env, "B").len(), 0);
    assert_eq!(env_names(&env, "Z").len(), 0);
    assert_eq!(env_overrides(&env, "O").get("a"), Some(&true));
    assert_eq!(env_overrides(&env, "Z").len(), 0);
    assert_eq!(env_periods(&env, "P").len(), 1);
    assert_eq!(env_periods(&env, "Z").len(), 0);
    assert_eq!(env_run_limits(&env, "R").unwrap().len(), 1);
    assert_eq!(env_run_limits(&env, "Z").unwrap().len(), 0);
}

#[test]
fn durations_and_dates_fall_back_to_their_defaults() {
    let env = env_of(&[("D", "2h"), ("E", "2"), ("T", "2020-01-02 03:04:05"), ("U", "2020")]);
    let nine_hours = Duration { nanos: 32_400_000_000_000 };
    assert_eq!(env_duration(&env, "D", nine_hours), Ok(Duration { nanos: 7_200_000_000_000 }));
    assert_eq!(env_duration(&env, "Z", nine_hours), Ok(nine_hours));
    assert_eq!(env_duration(&env, "E", nine_hours), Err(malformed("E", "2", "duration")));
    let start = DateTime { year: 2012, month: 7, day: 1, hour: 0, minute: 0, second: 0 };
    assert_eq!(
        env_date_time(&env, "T", start),
        Ok(DateTime { year: 2020, month: 1, day: 2, hour: 3, minute: 4, second: 5 })
    );
    assert_eq!(env_date_time(&env, "Z", start), Ok(start));
    assert_eq!(env_date_time(&env, "U", start), Err(malformed("U", "2020", "date")));
}

#[test]
fn pattern_of_a_variable_is_compiled_where_it_is_present() {
    let env = env_of(&[("A", "^a"), ("B", "(("), ("C", " ")]);
    let m = env_pattern(&env, "A").unwrap().unwrap();
    assert_eq!(m.pattern, "^a");
    assert!(m.regex.is_match("ab"));
    assert!(!m.regex.is_match("ba"));
    assert_eq!(env_pattern(&env, "B").err(), Some(malformed("B", "((", "regex")));
    assert!(env_pattern(&env, "C").unwrap().is_none());
    assert!(env_pattern(&env, "Z").unwrap().is_none());
}
