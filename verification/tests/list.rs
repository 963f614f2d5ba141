use devstats::error::{ConfigError, RunLimit};
use devstats::list::{
    name_set, number_list, override_map, period_map, read_override, read_period, read_run_entry,
    run_limits, BoolSet, ReadRunEntry,
};
use devstats::number::Malformed;

#[test]
fn number_list_reads_every_piece() {
    assert_eq!(number_list::<i16>("10,30,60"), Ok(vec![10, 30, 60]));
    assert_eq!(number_list::<i16>("0"), Ok(vec![0]));
    assert_eq!(number_list::<i16>("-1,+2"), Ok(vec![-1, 2]));
}

#[test]
fn number_list_stops_at_the_first_bad_piece() {
    assert_eq!(
        number_list::<i16>("10,x,y"),
        Err(Malformed { value: "x".to_string(), target: "i16".to_string() })
    );
    assert_eq!(
        number_list::<i16>("10,,30"),
        Err(Malformed { value: "".to_string(), target: "i16".to_string() })
    );
    assert_eq!(
        number_list::<i16>("10, 30"),
        Err(Malformed { value: " 30".to_string(), target: "i16".to_string() })
    );
    assert_eq!(
        number_list::<i16>("40000"),
        Err(Malformed { value: "40000".to_string(), target: "i16".to_string() })
    );
    assert_eq!(
        number_list::<i16>(""),
        Err(Malformed { value: "".to_string(), target: "i16".to_string() })
    );
}

#[test]
fn name_set_passes_over_empty_pieces() {
    let s = name_set("a/b,,c/d,a/b,");
    assert_eq!(s.names, vec!["a/b", "c/d"]);
    assert!(s.contains("a/b"));
    assert!(!s.contains(""));
    assert_eq!(name_set("").len(), 0);
    assert_eq!(name_set(",,,").len(), 0);
}

#[test]
fn override_map_of_signed_entries() {
    let m = override_map("+a,-b,x");
    assert_eq!(m.len(), 2);
    assert_eq!(m.get("a"), Some(&true));
    assert_eq!(m.get("b"), Some(&false));
    assert_eq!(m.get("x"), None);
    assert_eq!(m.get(""), None);
}

#[test]
fn override_map_drops_what_has_no_sign_or_no_key() {
    let m = override_map("+,-,,a,+b,=c,b+");
    assert_eq!(m.len(), 1);
    assert_eq!(m.get("b"), Some(&true));
    assert_eq!(override_map("").len(), 0);
}

#[test]
fn override_map_lets_the_later_entry_win() {
    let m = override_map("-pro1,+pro2,+pro1");
    assert_eq!(m.len(), 2);
    assert_eq!(m.get("pro1"), Some(&true));
    assert_eq!(m.get("pro2"), Some(&true));
    assert_eq!(m.entries, vec![("pro1".to_string(), true), ("pro2".to_string(), true)]);
}

#[test]
fn override_entry_keeps_what_follows_the_sign() {
    assert_eq!(read_override("+a"), Some(("a".to_string(), true)));
    assert_eq!(read_override("-a b"), Some(("a b".to_string(), false)));
    assert_eq!(read_override("++"), Some(("+".to_string(), true)));
    assert_eq!(read_override("+\u{e9}"), Some(("\u{e9}".to_string(), true)));
    assert_eq!(read_override("+"), None);
    assert_eq!(read_override(""), None);
    assert_eq!(read_override("a+"), None);
    assert_eq!(read_override(" +a"), None);
}

#[test]
fn period_entry_needs_two_fields_and_t_or_f() {
    assert_eq!(read_period("y10:t"), Some(("y10".to_string(), true)));
    assert_eq!(read_period("m: f "), Some(("m".to_string(), false)));
    assert_eq!(read_period(" m:f"), Some((" m".to_string(), false)));
    assert_eq!(read_period(":t"), Some(("".to_string(), true)));
    assert_eq!(read_period("m"), None);
    assert_eq!(read_period("m:x"), None);
    assert_eq!(read_period("m:tt"), None);
    assert_eq!(read_period("m:"), None);
    assert_eq!(read_period("m:t:f"), None);
    assert_eq!(read_period(""), None);
}

#[test]
fn period_map_gathers_the_booleans_of_a_period() {
    let m = period_map("y10:t,m:f,bad,y10:f,q:x");
    assert_eq!(m.len(), 2);
    assert_eq!(m.get("y10"), Some(&BoolSet { has_true: true, has_false: true }));
    assert_eq!(m.get("m"), Some(&BoolSet { has_true: false, has_false: true }));
    assert_eq!(m.get("q"), None);
    assert_eq!(period_map("").len(), 0);
}

#[test]
fn run_entry_of_three_trimmed_fields() {
    match read_run_entry(" tags : 1h : 0 ") {
        ReadRunEntry::Limit(program, limit) => {
            assert_eq!(program, "tags");
            assert_eq!(limit, RunLimit { seconds: 3600, status: 0 });
        }
        _ => panic!("a limit was expected"),
    }
    match read_run_entry("calc_metric:12h:1") {
        ReadRunEntry::Limit(program, limit) => {
            assert_eq!(program, "calc_metric");
            assert_eq!(limit, RunLimit { seconds: 43200, status: 1 });
        }
        _ => panic!("a limit was expected"),
    }
    match read_run_entry("x:1500ms:-2") {
        ReadRunEntry::Limit(_, limit) => assert_eq!(limit, RunLimit { seconds: 1, status: -2 }),
        _ => panic!("a limit was expected"),
    }
    assert!(matches!(read_run_entry("tags:1h"), ReadRunEntry::Skipped));
    assert!(matches!(read_run_entry("tags:1h:0:1"), ReadRunEntry::Skipped));
    assert!(matches!(read_run_entry(""), ReadRunEntry::Skipped));
    match read_run_entry("tags: soon :0") {
        ReadRunEntry::BadDuration(v) => assert_eq!(v, "soon"),
        _ => panic!("a bad duration was expected"),
    }
    match read_run_entry("tags:1h: x ") {
        ReadRunEntry::BadStatus(v) => assert_eq!(v, "x"),
        _ => panic!("a bad status was expected"),
    }
    match read_run_entry("tags:soon:x") {
        ReadRunEntry::BadDuration(v) => assert_eq!(v, "soon"),
        _ => panic!("a bad duration was expected"),
    }
}

#[test]
fn run_limits_of_several_programs() {
    let m = run_limits("V", "tags:1h:0,calc_metric:12h:1,skipped").unwrap();
    assert_eq!(m.len(), 2);
    assert_eq!(m.get("tags"), Some(&RunLimit { seconds: 3600, status: 0 }));
    assert_eq!(m.get("calc_metric"), Some(&RunLimit { seconds: 43200, status: 1 }));
    assert_eq!(run_limits("V", "").unwrap().len(), 0);
}

#[test]
fn run_limits_refuse_a_program_named_twice() {
    assert_eq!(
        run_limits("GHA2DB_MAX_RUN_DURATION", "tags:1h:0,tags:2h:1").err(),
        Some(ConfigError::DuplicateDefinition {
            variable: "GHA2DB_MAX_RUN_DURATION".to_string(),
            key: "tags".to_string(),
            existing: RunLimit { seconds: 3600, status: 0 },
        })
    );
    assert_eq!(
        run_limits("V", "a:1s:0, a :1s:0").err(),
        Some(ConfigError::DuplicateDefinition {
            variable: "V".to_string(),
            key: "a".to_string(),
            existing: RunLimit { seconds: 1, status: 0 },
        })
    );
}

#[test]
fn run_limits_stop_at_the_first_failure() {
    assert_eq!(
        run_limits("V", "a:1h:0,b:later:0,a:1h:0").err(),
        Some(ConfigError::MalformedValue {
            variable: "V".to_string(),
            value: "later".to_string(),
            target: "duration".to_string(),
        })
    );
    assert_eq!(
        run_limits("V", "a:1h:zero").err(),
        Some(ConfigError::MalformedValue {
            variable: "V".to_string(),
            value: "zero".to_string(),
            target: "i32".to_string(),
        })
    );
    assert_eq!(
        run_limits("V", "a:1h:0,a:1h:0,b:later:0").err(),
        Some(ConfigError::DuplicateDefinition {
            variable: "V".to_string(),
            key: "a".to_string(),
            existing: RunLimit { seconds: 3600, status: 0 },
        })
    );
}
