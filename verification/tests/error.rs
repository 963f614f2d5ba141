use devstats::error::{ConfigError, RunLimit};

#[test]
fn message_of_a_malformed_value() {
    let e = ConfigError::MalformedValue {
        variable: "GHA2DB_DEBUG".to_string(),
        value: "abc".to_string(),
        target: "i8".to_string(),
    };
    assert_eq!(e.message(), "GHA2DB_DEBUG: cannot convert 'abc' to i8");
}

#[test]
fn message_of_a_duplicate_names_what_the_key_had() {
    let e = ConfigError::DuplicateDefinition {
        variable: "GHA2DB_MAX_RUN_DURATION".to_string(),
        key: "tags".to_string(),
        existing: RunLimit { seconds: 3600, status: 0 },
    };
    assert_eq!(
        e.message(),
        "GHA2DB_MAX_RUN_DURATION: 'tags' already defined as {duration:3600s, status:0}"
    );
    let f = ConfigError::DuplicateDefinition {
        variable: "V".to_string(),
        key: "k".to_string(),
        existing: RunLimit { seconds: 0, status: -2147483648 },
    };
    assert_eq!(f.message(), "V: 'k' already defined as {duration:0s, status:-2147483648}");
}

#[test]
fn message_of_a_failed_probe() {
    let e = ConfigError::FilesystemProbeFailure { path: "/etc/github/oauth".to_string() };
    assert_eq!(e.message(), "cannot probe '/etc/github/oauth'");
}

#[test]
fn message_of_a_probe_not_made() {
    let e = ConfigError::ProbeNotMade { path: "/etc/github/oauths".to_string() };
    assert_eq!(e.message(), "no probe was made of '/etc/github/oauths'");
}
