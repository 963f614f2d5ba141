use devstats::probe::{candidates, oauth_step, OauthStep, Probe};

#[test]
fn oauth_setting_needs_no_probe() {
    assert_eq!(oauth_step("/my/token", &vec![]), OauthStep::Resolved("/my/token".to_string()));
    assert_eq!(
        oauth_step("-", &vec![Probe::Failed, Probe::Failed]),
        OauthStep::Resolved("-".to_string())
    );
}

#[test]
fn oauth_probes_the_candidates_in_order() {
    assert_eq!(candidates(), vec!["/etc/github/oauths", "/etc/github/oauth"]);
    assert_eq!(oauth_step("", &vec![]), OauthStep::Probe("/etc/github/oauths".to_string()));
    assert_eq!(
        oauth_step("", &vec![Probe::Missing]),
        OauthStep::Probe("/etc/github/oauth".to_string())
    );
}

#[test]
fn oauth_takes_the_first_file_found() {
    assert_eq!(
        oauth_step("", &vec![Probe::Found]),
        OauthStep::Resolved("/etc/github/oauths".to_string())
    );
    assert_eq!(
        oauth_step("", &vec![Probe::Found, Probe::Failed]),
        OauthStep::Resolved("/etc/github/oauths".to_string())
    );
    assert_eq!(
        oauth_step("", &vec![Probe::Missing, Probe::Found]),
        OauthStep::Resolved("/etc/github/oauth".to_string())
    );
}

#[test]
fn oauth_without_a_file_is_public_access() {
    assert_eq!(
        oauth_step("", &vec![Probe::Missing, Probe::Missing]),
        OauthStep::Resolved("-".to_string())
    );
    assert_eq!(
        oauth_step("", &vec![Probe::Missing, Probe::Missing, Probe::Failed]),
        OauthStep::Resolved("-".to_string())
    );
}

#[test]
fn oauth_stops_at_a_failed_probe() {
    assert_eq!(
        oauth_step("", &vec![Probe::Failed]),
        OauthStep::Failed("/etc/github/oauths".to_string())
    );
    assert_eq!(
        oauth_step("", &vec![Probe::Missing, Probe::Failed]),
        OauthStep::Failed("/etc/github/oauth".to_string())
    );
}
