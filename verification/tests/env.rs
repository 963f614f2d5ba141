use devstats::env::{env_is_empty, env_is_set, env_number, env_or_default, Env};

fn env_of(pairs: &[(&str, &str)]) -> Env {
    Env { vars: pairs.iter().map(|(k, v)| (k.to_string(), v.to_string())).collect() }
}

#[test]
fn env_is_set_looks_at_presence_only() {
    let env = env_of(&[("A", "x"), ("B", ""), ("C", "  ")]);
    assert!(env_is_set(&env, "A"));
    assert!(env_is_set(&env, "B"));
    assert!(env_is_set(&env, "C"));
    assert!(!env_is_set(&env, "D"));
    assert!(!env_is_set(&Env::new(), "A"));
}

#[test]
fn env_is_empty_takes_blank_for_absent() {
    let env = env_of(&[("A", "x"), ("B", ""), ("C", " \t"), ("E", " y ")]);
    assert!(!env_is_empty(&env, "A"));
    assert!(env_is_empty(&env, "B"));
    assert!(env_is_empty(&env, "C"));
    assert!(env_is_empty(&env, "D"));
    assert!(!env_is_empty(&env, "E"));
}

#[test]
fn env_or_default_trims_the_value() {
    let env = env_of(&[("A", "x"), ("B", ""), ("C", " \t"), ("E", "  y z ")]);
    assert_eq!(env_or_default(&env, "A", "d".to_string()), "x");
    assert_eq!(env_or_default(&env, "B", "d".to_string()), "d");
    assert_eq!(env_or_default(&env, "C", "d".to_string()), "d");
    assert_eq!(env_or_default(&env, "D", "d".to_string()), "d");
    assert_eq!(env_or_default(&env, "E", "d".to_string()), "y z");
}

#[test]
fn env_get_takes_the_first_pair_of_a_name() {
    let env = env_of(&[("A", "1"), ("A", "2"), ("AB", "3")]);
    assert_eq!(env.get("A"), Some("1"));
    assert_eq!(env.get("AB"), Some("3"));
    assert_eq!(env.get("B"), None);
    assert_eq!(env.get(""), None);
}

#[test]
fn env_number_reads_the_value() {
    let env = env_of(&[("N", "12"), ("M", "-7")]);
    assert_eq!(env_number::<u16>(&env, "N"), 12);
    assert_eq!(env_number::<i8>(&env, "M"), -7);
}
