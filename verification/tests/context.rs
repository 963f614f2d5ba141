use devstats::context::Ctx;
use devstats::datetime::DateTime;
use devstats::env::Env;
use devstats::error::{ConfigError, RunLimit};
use devstats::list::BoolSet;
use devstats::probe::Probe;

fn env_of(pairs: &[(&str, &str)]) -> Env {
    Env { vars: pairs.iter().map(|(k, v)| (k.to_string(), v.to_string())).collect() }
}

fn no_files() -> Vec<Probe> {
    vec![Probe::Missing, Probe::Missing]
}

fn resolve(pairs: &[(&str, &str)]) -> Ctx {
    Ctx::new(&env_of(pairs), &no_files()).unwrap()
}

fn failure(pairs: &[(&str, &str)]) -> ConfigError {
    Ctx::new(&env_of(pairs), &no_files()).err().unwrap()
}

fn malformed(variable: &str, value: &str, target: &str) -> ConfigError {
    ConfigError::MalformedValue {
        variable: variable.to_string(),
        value: value.to_string(),
        target: target.to_string(),
    }
}

#[test]
fn empty_environment_gives_the_defaults() {
    let c = resolve(&[]);
    assert_eq!(c.data_dir, "/etc/gha2db/");
    assert_eq!(c.debug, 0);
    assert_eq!(c.cmd_debug, 0);
    assert_eq!(c.github_debug, 0);
    assert!(!c.dry_run);
    assert!(!c.json_out);
    assert!(c.db_out);
    assert!(!c.st);
    assert_eq!(c.ncpus, 0);
    assert_eq!(c.pg_host, "localhost");
    assert_eq!(c.pg_port, "5432");
    assert_eq!(c.pg_db, "gha");
    assert_eq!(c.pg_user, "gha_admin");
    assert_eq!(c.pg_pass, "password");
    assert_eq!(c.pg_ssl, "disable");
    assert!(!c.index);
    assert!(c.table);
    assert!(c.tools);
    assert_eq!(c.mgetc, "");
    assert!(!c.q_out);
    assert!(!c.ctx_out);
    assert!(c.log_time);
    assert_eq!(
        c.default_start_date,
        DateTime { year: 2012, month: 7, day: 1, hour: 0, minute: 0, second: 0 }
    );
    assert!(!c.force_start_date);
    assert_eq!(c.last_series, "events_h");
    assert!(c.log_to_db);
    assert_eq!(c.metrics_yaml, "metrics/metrics.yaml");
    assert_eq!(c.tags_yaml, "metrics/tags.yaml");
    assert_eq!(c.columns_yaml, "metrics/columns.yaml");
    assert_eq!(c.vars_yaml, "metrics/vars.yaml");
    assert_eq!(c.vars_fn_yaml, "vars.yaml");
    assert_eq!(c.skip_dates_yaml, "skip_dates.yaml");
    assert_eq!(c.github_oauth, "-");
    assert_eq!(c.clear_db_period, "1 week");
    assert_eq!(c.clear_affs_lock_period, "16 hours");
    assert_eq!(c.clear_giant_lock_period, "40 hours");
    assert_eq!(c.webhook_root, "/hook");
    assert_eq!(c.webhook_port, ":1982");
    assert_eq!(c.webhook_host, "127.0.0.1");
    assert!(c.check_payload);
    assert!(c.full_deploy);
    assert_eq!(c.deploy_branches, vec!["master"]);
    assert_eq!(c.deploy_statuses, vec!["Passed", "Fixed"]);
    assert_eq!(c.deploy_results, vec![0]);
    assert_eq!(c.deploy_types, vec!["push"]);
    assert_eq!(c.project_root, "");
    assert!(c.exec_fatal);
    assert!(!c.exec_quiet);
    assert!(!c.exec_output);
    assert_eq!(c.project, "");
    assert_eq!(c.tests_yaml, "tests.yaml");
    assert_eq!(c.repos_dir, "/devstats_repos/");
    assert_eq!(c.projects_commits, "");
    assert!(!c.propagate_only_var);
    assert_eq!(c.projects_yaml, "projects.yaml");
    assert_eq!(c.company_acq_yaml, "companies.yaml");
    assert_eq!(c.projects_override.len(), 0);
    assert_eq!(c.affiliations_json, "github_users.json");
    assert_eq!(c.exclude_repos.len(), 0);
    assert!(c.input_dbs.is_empty());
    assert_eq!(c.output_db, "");
    assert_eq!(c.mm_offset, 0);
    assert_eq!(c.default_hostname, "devstats.cncf.io");
    assert_eq!(c.recent_range, "2 hours");
    assert_eq!(c.recent_repos_range, "1 day");
    assert_eq!(c.min_ghapi_points, 1);
    assert_eq!(c.max_ghapi_wait_seconds, 10);
    assert_eq!(c.max_ghapi_retry, 6);
    assert_eq!(c.csv_file, "");
    assert!(!c.actors_filter);
    assert!(c.actors_allow.is_none());
    assert!(c.actors_forbid.is_none());
    assert_eq!(c.skip_metrics.len(), 0);
    assert_eq!(c.only_metrics.len(), 0);
    assert_eq!(c.jsons_dir, "./jsons/");
    assert_eq!(c.compute_periods.len(), 0);
    assert!(c.auto_fetch_commits);
    assert_eq!(c.exclude_vars.len(), 0);
    assert_eq!(c.only_vars.len(), 0);
    assert_eq!(c.max_running_flag_age.nanos, 32_400_000_000_000);
    assert_eq!(c.max_running_flag_age.seconds(), 9 * 3600);
    assert_eq!(c.http_timeout, 3);
    assert_eq!(c.http_retry, 5);
    assert_eq!(c.pid_file_root, "devstats");
    assert_eq!(c.shared_db, "");
    assert_eq!(c.project_main_repo, "");
    assert!(!c.test_mode);
    assert!(c.can_reconnect);
    assert!(c.commits_files_stats_enabled);
    assert!(c.commits_loc_stats_enabled);
    assert_eq!(c.recalc_reciprocal, 24);
    assert_eq!(c.max_histograms, 0);
    assert_eq!(c.max_run_duration.len(), 0);
    assert!(c.rand_compute_at_this_date);
    assert!(!c.refresh_commit_roles);
    assert!(!c.allow_rand_tags_cols_compute);
}

#[test]
fn every_flag_is_off_by_default() {
    let c = resolve(&[]);
    let flags = [
        c.skip_tsdb,
        c.skip_pdb,
        c.reset_tsdb,
        c.reset_ranges,
        c.explain,
        c.old_format,
        c.exact,
        c.local,
        c.absolute,
        c.local_cmd,
        c.process_repos,
        c.process_commits,
        c.external_info,
        c.ghapi_error_is_fatal,
        c.skip_ghapi,
        c.skip_api_events,
        c.skip_api_commits,
        c.skip_api_licenses,
        c.force_api_licenses,
        c.skip_api_langs,
        c.force_api_langs,
        c.skip_set_repos,
        c.compute_all,
        c.allow_broken_json,
        c.website_data,
        c.skip_update_events,
        c.skip_tags,
        c.skip_annotations,
        c.skip_columns,
        c.run_columns,
        c.skip_vars,
        c.skip_rand,
        c.skip_shared_db,
        c.skip_pid_file,
        c.skip_company_acq,
        c.check_provision_flag,
        c.check_running_flag,
        c.set_running_flag,
        c.check_imported_sha,
        c.only_check_imported_sha,
        c.enable_metrics_drop,
    ];
    assert!(flags.iter().all(|f| !f));
}

#[test]
fn blank_values_give_the_defaults_too() {
    let c = resolve(&[
        ("GHA2DB_DATADIR", "  "),
        ("GHA2DB_DEBUG", " "),
        ("GHA2DB_TRIALS", "\t"),
        ("GHA2DB_ST", " "),
        ("GHA2DB_NCPUS", ""),
        ("GHA2DB_NODB", " "),
        ("PG_HOST", ""),
        ("GHA2DB_MIN_GHAPI_POINTS", "   "),
        ("GHA2DB_MAX_RUN_DURATION", " "),
        ("GHA2DB_MAX_RUNNING_FLAG_AGE", " "),
        ("GHA2DB_PROJECTS_OVERRIDE", " "),
        ("GHA2DB_ACTORS_FILTER", "1"),
        ("GHA2DB_ACTORS_ALLOW", " "),
    ]);
    assert_eq!(c.data_dir, "/etc/gha2db/");
    assert_eq!(c.debug, 0);
    assert_eq!(c.trials, vec![10, 30, 60, 120, 300, 600, 1200, 3600]);
    assert!(!c.st);
    assert_eq!(c.ncpus, 0);
    assert!(c.db_out);
    assert_eq!(c.pg_host, "localhost");
    assert_eq!(c.min_ghapi_points, 1);
    assert_eq!(c.max_run_duration.len(), 0);
    assert_eq!(c.max_running_flag_age.nanos, 32_400_000_000_000);
    assert_eq!(c.projects_override.len(), 0);
    assert!(c.actors_filter);
    assert!(c.actors_allow.is_none());
}

#[test]
fn trials_default_to_the_literal_list() {
    let c = resolve(&[("GHA2DB_DEBUG", "1")]);
    assert_eq!(c.trials, vec![10, 30, 60, 120, 300, 600, 1200, 3600]);
    let d = resolve(&[("GHA2DB_TRIALS", "1,2,3")]);
    assert_eq!(d.trials, vec![1, 2, 3]);
    assert_eq!(failure(&[("GHA2DB_TRIALS", "1,two")]), malformed("GHA2DB_TRIALS", "two", "i16"));
}

#[test]
fn data_dir_ends_with_a_separator() {
    assert_eq!(resolve(&[("GHA2DB_DATADIR", "/data")]).data_dir, "/data/");
    assert_eq!(resolve(&[("GHA2DB_DATADIR", "/data/")]).data_dir, "/data/");
    assert_eq!(resolve(&[("GHA2DB_DATADIR", "  /data ")]).data_dir, "/data/");
    assert_eq!(resolve(&[("GHA2DB_JSONS_DIR", "out")]).jsons_dir, "out/");
    assert_eq!(resolve(&[("GHA2DB_REPOS_DIR", "/r")]).repos_dir, "/r/");
    assert_eq!(resolve(&[("HOME", "/home/u")]).repos_dir, "/home/u/devstats_repos/");
}

#[test]
fn one_cpu_forces_single_threaded_mode() {
    let c = resolve(&[("GHA2DB_NCPUS", "1")]);
    assert!(c.st);
    assert_eq!(c.ncpus, 1);
    let d = resolve(&[("GHA2DB_NCPUS", "1"), ("GHA2DB_ST", "")]);
    assert!(d.st);
    let e = resolve(&[("GHA2DB_NCPUS", "1"), ("GHA2DB_ST", "1")]);
    assert!(e.st);
    assert_eq!(e.ncpus, 1);
}

#[test]
fn cpu_count_and_single_thread_flag() {
    let c = resolve(&[("GHA2DB_NCPUS", "4")]);
    assert!(!c.st);
    assert_eq!(c.ncpus, 4);
    let d = resolve(&[("GHA2DB_NCPUS", "4"), ("GHA2DB_ST", "y")]);
    assert!(d.st);
    assert_eq!(d.ncpus, 4);
    let e = resolve(&[("GHA2DB_NCPUS", "0"), ("GHA2DB_ST", "y")]);
    assert!(e.st);
    assert_eq!(e.ncpus, 0);
    let f = resolve(&[("GHA2DB_NCPUS", "0")]);
    assert!(!f.st);
    assert_eq!(f.ncpus, 0);
}

#[test]
fn cpu_count_below_one_is_passed_over() {
    let c = resolve(&[("GHA2DB_NCPUS", "-1")]);
    assert!(!c.st);
    assert_eq!(c.ncpus, 0);
    let d = resolve(&[("GHA2DB_NCPUS", "-1"), ("GHA2DB_ST", "1")]);
    assert!(d.st);
    assert_eq!(d.ncpus, 0);
    let e = resolve(&[("GHA2DB_NCPUS", "-70000")]);
    assert!(!e.st);
    assert_eq!(e.ncpus, 0);
    let f = resolve(&[("GHA2DB_NCPUS", "-0")]);
    assert_eq!(f.ncpus, 0);
    let mut g = Ctx::default(&env_of(&[]), &no_files()).unwrap();
    assert_eq!(g.set_cpus(&env_of(&[("GHA2DB_NCPUS", "-1")])), Ok(()));
    assert!(!g.st);
    assert_eq!(g.ncpus, 0);
    let mut h = resolve(&[("GHA2DB_NCPUS", "8")]);
    assert_eq!(h.set_cpus(&env_of(&[("GHA2DB_NCPUS", "-3")])), Ok(()));
    assert!(!h.st);
    assert_eq!(h.ncpus, 8);
}

#[test]
fn cpu_count_must_be_an_integer_that_the_count_holds() {
    assert_eq!(failure(&[("GHA2DB_NCPUS", "many")]), malformed("GHA2DB_NCPUS", "many", "u16"));
    assert_eq!(failure(&[("GHA2DB_NCPUS", "1.5")]), malformed("GHA2DB_NCPUS", "1.5", "u16"));
    assert_eq!(failure(&[("GHA2DB_NCPUS", " 2")]), malformed("GHA2DB_NCPUS", " 2", "u16"));
    assert_eq!(failure(&[("GHA2DB_NCPUS", "65536")]), malformed("GHA2DB_NCPUS", "65536", "u16"));
    assert_eq!(
        failure(&[("GHA2DB_NCPUS", "99999999999999999999")]),
        malformed("GHA2DB_NCPUS", "99999999999999999999", "u16")
    );
    assert_eq!(resolve(&[("GHA2DB_NCPUS", "65535")]).ncpus, 65535);
    assert_eq!(resolve(&[("GHA2DB_NCPUS", "+2")]).ncpus, 2);
}

#[test]
fn set_cpus_keeps_the_count_it_had_where_none_is_given() {
    let mut c = resolve(&[("GHA2DB_NCPUS", "8"), ("GHA2DB_DEBUG", "2")]);
    assert_eq!(c.ncpus, 8);
    assert_eq!(c.set_cpus(&env_of(&[("GHA2DB_ST", "1")])), Ok(()));
    assert!(c.st);
    assert_eq!(c.ncpus, 8);
    assert_eq!(c.debug, 2);
    assert_eq!(c.set_cpus(&env_of(&[("GHA2DB_NCPUS", "2")])), Ok(()));
    assert!(!c.st);
    assert_eq!(c.ncpus, 2);
    assert_eq!(
        c.set_cpus(&env_of(&[("GHA2DB_NCPUS", "x"), ("GHA2DB_ST", "1")])),
        Err(malformed("GHA2DB_NCPUS", "x", "u16"))
    );
    assert!(!c.st);
    assert_eq!(c.ncpus, 2);
}

#[test]
fn default_leaves_the_cpus_alone() {
    let env = env_of(&[("GHA2DB_NCPUS", "1"), ("GHA2DB_ST", "1")]);
    let c = Ctx::default(&env, &no_files()).unwrap();
    assert!(!c.st);
    assert_eq!(c.ncpus, 0);
    let d = Ctx::default(&env_of(&[("GHA2DB_NCPUS", "x")]), &no_files()).unwrap();
    assert_eq!(d.ncpus, 0);
}

#[test]
fn debug_level_must_be_a_number() {
    assert_eq!(failure(&[("GHA2DB_DEBUG", "abc")]), malformed("GHA2DB_DEBUG", "abc", "i8"));
    assert_eq!(failure(&[("GHA2DB_DEBUG", "200")]), malformed("GHA2DB_DEBUG", "200", "i8"));
    assert_eq!(failure(&[("GHA2DB_CMDDEBUG", "1.0")]), malformed("GHA2DB_CMDDEBUG", "1.0", "i8"));
    assert_eq!(resolve(&[("GHA2DB_DEBUG", "2")]).debug, 2);
    assert_eq!(resolve(&[("GHA2DB_DEBUG", "-1")]).debug, -1);
    assert_eq!(resolve(&[("GHA2DB_DEBUG", "0")]).debug, 0);
    assert_eq!(resolve(&[("GHA2DB_CMDDEBUG", "3")]).cmd_debug, 3);
    assert_eq!(resolve(&[("GHA2DB_GITHUB_DEBUG", "1")]).github_debug, 1);
    assert_eq!(resolve(&[("GHA2DB_TMOFFSET", "-6")]).mm_offset, -6);
    assert_eq!(resolve(&[("GHA2DB_HTTP_TIMEOUT", "0")]).http_timeout, 0);
    assert_eq!(resolve(&[("GHA2DB_HTTP_RETRY", "2")]).http_retry, 2);
}

#[test]
fn ghapi_points_below_zero_leave_the_default() {
    assert_eq!(resolve(&[("GHA2DB_MIN_GHAPI_POINTS", "-5")]).min_ghapi_points, 1);
    assert_eq!(resolve(&[("GHA2DB_MIN_GHAPI_POINTS", "0")]).min_ghapi_points, 0);
    assert_eq!(resolve(&[("GHA2DB_MIN_GHAPI_POINTS", "50")]).min_ghapi_points, 50);
    assert_eq!(
        failure(&[("GHA2DB_MIN_GHAPI_POINTS", "five")]),
        malformed("GHA2DB_MIN_GHAPI_POINTS", "five", "i16")
    );
}

#[test]
fn guarded_numbers_have_their_guards() {
    assert_eq!(resolve(&[("GHA2DB_MAX_GHAPI_WAIT", "-1")]).max_ghapi_wait_seconds, 10);
    assert_eq!(resolve(&[("GHA2DB_MAX_GHAPI_WAIT", "0")]).max_ghapi_wait_seconds, 0);
    assert_eq!(resolve(&[("GHA2DB_MAX_GHAPI_RETRY", "0")]).max_ghapi_retry, 6);
    assert_eq!(resolve(&[("GHA2DB_MAX_GHAPI_RETRY", "1")]).max_ghapi_retry, 1);
    assert_eq!(resolve(&[("GHA2DB_RECALC_RECIPROCAL", "0")]).recalc_reciprocal, 24);
    assert_eq!(resolve(&[("GHA2DB_RECALC_RECIPROCAL", "-3")]).recalc_reciprocal, 24);
    assert_eq!(resolve(&[("GHA2DB_RECALC_RECIPROCAL", "12")]).recalc_reciprocal, 12);
    assert_eq!(resolve(&[("GHA2DB_MAX_HIST", "-1")]).max_histograms, 0);
    assert_eq!(resolve(&[("GHA2DB_MAX_HIST", "8")]).max_histograms, 8);
}

#[test]
fn projects_override_of_signed_entries() {
    let c = resolve(&[("GHA2DB_PROJECTS_OVERRIDE", "+a,-b,x")]);
    assert_eq!(c.projects_override.len(), 2);
    assert_eq!(c.projects_override.get("a"), Some(&true));
    assert_eq!(c.projects_override.get("b"), Some(&false));
    assert_eq!(c.projects_override.get("x"), None);
}

#[test]
fn run_duration_of_a_program_named_twice_is_fatal() {
    let e = failure(&[("GHA2DB_MAX_RUN_DURATION", "tags:1h:0,tags:2h:1")]);
    assert_eq!(
        e,
        ConfigError::DuplicateDefinition {
            variable: "GHA2DB_MAX_RUN_DURATION".to_string(),
            key: "tags".to_string(),
            existing: RunLimit { seconds: 3600, status: 0 },
        }
    );
    assert_eq!(
        e.message(),
        "GHA2DB_MAX_RUN_DURATION: 'tags' already defined as {duration:3600s, status:0}"
    );
}

#[test]
fn run_durations_are_kept_by_program() {
    let c = resolve(&[("GHA2DB_MAX_RUN_DURATION", "tags:1h:0,calc_metric:12h:1")]);
    assert_eq!(c.max_run_duration.len(), 2);
    assert_eq!(c.max_run_duration.get("tags"), Some(&RunLimit { seconds: 3600, status: 0 }));
    assert_eq!(
        c.max_run_duration.get("calc_metric"),
        Some(&RunLimit { seconds: 43200, status: 1 })
    );
    assert_eq!(
        failure(&[("GHA2DB_MAX_RUN_DURATION", "tags:1y:0")]),
        malformed("GHA2DB_MAX_RUN_DURATION", "1y", "duration")
    );
}

#[test]
fn project_prefixes_the_yaml_files() {
    let c = resolve(&[("GHA2DB_PROJECT", "kubernetes")]);
    assert_eq!(c.project, "kubernetes");
    assert_eq!(c.metrics_yaml, "metrics/kubernetes/metrics.yaml");
    assert_eq!(c.tags_yaml, "metrics/kubernetes/tags.yaml");
    assert_eq!(c.columns_yaml, "metrics/kubernetes/columns.yaml");
    assert_eq!(c.vars_yaml, "metrics/kubernetes/vars.yaml");
    let d = resolve(&[
        ("GHA2DB_PROJECT", "prometheus"),
        ("GHA2DB_VARS_FN_YAML", "sync_vars.yaml"),
        ("GHA2DB_TAGS_YAML", "my/tags.yaml"),
    ]);
    assert_eq!(d.vars_fn_yaml, "sync_vars.yaml");
    assert_eq!(d.vars_yaml, "metrics/prometheus/sync_vars.yaml");
    assert_eq!(d.tags_yaml, "my/tags.yaml");
    assert_eq!(d.metrics_yaml, "metrics/prometheus/metrics.yaml");
    let e = resolve(&[("GHA2DB_VARS_YAML", "/abs/vars.yaml"), ("GHA2DB_PROJECT", "p")]);
    assert_eq!(e.vars_yaml, "/abs/vars.yaml");
}

#[test]
fn oauth_token_comes_from_the_setting_or_the_first_file_found() {
    let set = env_of(&[("GHA2DB_GITHUB_OAUTH", "/my/token")]);
    assert_eq!(Ctx::new(&set, &vec![]).unwrap().github_oauth, "/my/token");
    assert_eq!(Ctx::new(&set, &vec![Probe::Failed]).unwrap().github_oauth, "/my/token");
    let unset = env_of(&[]);
    assert_eq!(Ctx::new(&unset, &vec![Probe::Found]).unwrap().github_oauth, "/etc/github/oauths");
    assert_eq!(
        Ctx::new(&unset, &vec![Probe::Missing, Probe::Found]).unwrap().github_oauth,
        "/etc/github/oauth"
    );
    assert_eq!(
        Ctx::new(&unset, &vec![Probe::Missing, Probe::Missing]).unwrap().github_oauth,
        "-"
    );
}

#[test]
fn oauth_probe_that_failed_or_was_not_made_is_fatal() {
    let unset = env_of(&[]);
    assert_eq!(
        Ctx::new(&unset, &vec![Probe::Failed]).err(),
        Some(ConfigError::FilesystemProbeFailure { path: "/etc/github/oauths".to_string() })
    );
    assert_eq!(
        Ctx::new(&unset, &vec![Probe::Missing, Probe::Failed]).err(),
        Some(ConfigError::FilesystemProbeFailure { path: "/etc/github/oauth".to_string() })
    );
    assert_eq!(
        Ctx::new(&unset, &vec![]).err(),
        Some(ConfigError::ProbeNotMade { path: "/etc/github/oauths".to_string() })
    );
    assert_eq!(
        Ctx::new(&unset, &vec![Probe::Missing]).err(),
        Some(ConfigError::ProbeNotMade { path: "/etc/github/oauth".to_string() })
    );
}

#[test]
fn actor_patterns_are_compiled_where_actors_are_filtered() {
    let c = resolve(&[
        ("GHA2DB_ACTORS_FILTER", "1"),
        ("GHA2DB_ACTORS_ALLOW", "^k8s-"),
        ("GHA2DB_ACTORS_FORBID", "bot$"),
    ]);
    assert!(c.actors_filter);
    let allow = c.actors_allow.unwrap();
    let forbid = c.actors_forbid.unwrap();
    assert_eq!(allow.pattern, "^k8s-");
    assert!(allow.regex.is_match("k8s-ci"));
    assert!(!allow.regex.is_match("ci-k8s"));
    assert_eq!(forbid.pattern, "bot$");
    assert!(forbid.regex.is_match("k8s-bot"));
    let d = resolve(&[("GHA2DB_ACTORS_ALLOW", "^k8s-"), ("GHA2DB_ACTORS_FORBID", "((")]);
    assert!(!d.actors_filter);
    assert!(d.actors_allow.is_none());
    assert!(d.actors_forbid.is_none());
}

#[test]
fn actor_pattern_that_does_not_compile_is_fatal() {
    assert_eq!(
        failure(&[("GHA2DB_ACTORS_FILTER", "1"), ("GHA2DB_ACTORS_ALLOW", "foo(bar")]),
        malformed("GHA2DB_ACTORS_ALLOW", "foo(bar", "regex")
    );
    assert_eq!(
        failure(&[
            ("GHA2DB_ACTORS_FILTER", "1"),
            ("GHA2DB_ACTORS_ALLOW", "a"),
            ("GHA2DB_ACTORS_FORBID", "[")
        ]),
        malformed("GHA2DB_ACTORS_FORBID", "[", "regex")
    );
}

#[test]
fn first_failure_in_the_order_of_the_fields_is_reported() {
    assert_eq!(
        failure(&[
            ("GHA2DB_NCPUS", "x"),
            ("GHA2DB_ACTORS_FILTER", "1"),
            ("GHA2DB_ACTORS_ALLOW", "("),
            ("GHA2DB_MAX_HIST", "x"),
            ("GHA2DB_CMDDEBUG", "x"),
        ]),
        malformed("GHA2DB_CMDDEBUG", "x", "i8")
    );
    assert_eq!(
        failure(&[
            ("GHA2DB_NCPUS", "x"),
            ("GHA2DB_ACTORS_FILTER", "1"),
            ("GHA2DB_ACTORS_ALLOW", "("),
            ("GHA2DB_MAX_HIST", "x"),
        ]),
        malformed("GHA2DB_MAX_HIST", "x", "i8")
    );
    assert_eq!(
        failure(&[
            ("GHA2DB_NCPUS", "x"),
            ("GHA2DB_ACTORS_FILTER", "1"),
            ("GHA2DB_ACTORS_ALLOW", "("),
        ]),
        malformed("GHA2DB_ACTORS_ALLOW", "(", "regex")
    );
}

#[test]
fn lists_and_sets_are_read_from_commas() {
    let c = resolve(&[
        ("GHA2DB_DEPLOY_BRANCHES", "main,release"),
        ("GHA2DB_DEPLOY_STATUSES", "Passed"),
        ("GHA2DB_DEPLOY_RESULTS", "0,1"),
        ("GHA2DB_DEPLOY_TYPES", "push,,pr"),
        ("GHA2DB_INPUT_DBS", "db1,db2"),
        ("GHA2DB_EXCLUDE_REPOS", "theupdateframework/notary,,theupdateframework/other"),
        ("GHA2DB_EXCLUDE_VARS", "hostname"),
        ("GHA2DB_ONLY_VARS", "a,b,a"),
        ("GHA2DB_SKIP_METRICS", "m1"),
        ("GHA2DB_ONLY_METRICS", "m2,m3"),
        ("GHA2DB_FORCE_PERIODS", "y10:t,m:f,y10:f"),
    ]);
    assert_eq!(c.deploy_branches, vec!["main", "release"]);
    assert_eq!(c.deploy_statuses, vec!["Passed"]);
    assert_eq!(c.deploy_results, vec![0, 1]);
    assert_eq!(c.deploy_types, vec!["push", "", "pr"]);
    assert_eq!(c.input_dbs, vec!["db1", "db2"]);
    assert_eq!(c.exclude_repos.len(), 2);
    assert!(c.exclude_repos.contains("theupdateframework/notary"));
    assert!(c.exclude_repos.contains("theupdateframework/other"));
    assert!(c.exclude_vars.contains("hostname"));
    assert_eq!(c.only_vars.len(), 2);
    assert!(c.skip_metrics.contains("m1"));
    assert_eq!(c.only_metrics.len(), 2);
    assert_eq!(
        c.compute_periods.get("y10"),
        Some(&BoolSet { has_true: true, has_false: true })
    );
    assert_eq!(c.compute_periods.get("m"), Some(&BoolSet { has_true: false, has_false: true }));
    assert_eq!(
        failure(&[("GHA2DB_DEPLOY_RESULTS", "0,ok")]),
        malformed("GHA2DB_DEPLOY_RESULTS", "ok", "i16")
    );
}

#[test]
fn texts_are_trimmed_and_flags_need_a_value() {
    let c = resolve(&[
        ("PG_HOST", " db.example.org "),
        ("PG_PORT", "15432"),
        ("PG_DB", "stats"),
        ("PG_USER", "u"),
        ("PG_PASS", "p w"),
        ("PG_SSL", "require"),
        ("GHA2DB_NODB", "1"),
        ("GHA2DB_JSON", "y"),
        ("GHA2DB_SKIPTABLE", "1"),
        ("GHA2DB_SKIP_COMMITS_FILES", "1"),
        ("GHA2DB_WHPORT", "8080"),
        ("GHA2DB_MGETC", "yes"),
        ("GHA2DB_CSVOUT", "out.csv"),
        ("GHA2DB_REFRESH_COMMIT_ROLES", "0"),
    ]);
    assert_eq!(c.pg_host, "db.example.org");
    assert_eq!(c.pg_port, "15432");
    assert_eq!(c.pg_db, "stats");
    assert_eq!(c.pg_user, "u");
    assert_eq!(c.pg_pass, "p w");
    assert_eq!(c.pg_ssl, "require");
    assert!(!c.db_out);
    assert!(c.json_out);
    assert!(!c.table);
    assert!(c.tools);
    assert!(!c.commits_files_stats_enabled);
    assert!(c.commits_loc_stats_enabled);
    assert_eq!(c.webhook_port, ":8080");
    assert_eq!(resolve(&[("GHA2DB_WHPORT", ":9")]).webhook_port, ":9");
    assert_eq!(c.mgetc, "y");
    assert_eq!(c.csv_file, "out.csv");
    assert!(c.refresh_commit_roles);
}

#[test]
fn only_variable_is_propagated_to_the_projects_of_commits() {
    let c = resolve(&[("GHA2DB_PROPAGATE_ONLY_VAR", "1"), ("ONLY", "a b c")]);
    assert!(c.propagate_only_var);
    assert_eq!(c.projects_commits, "a,b,c");
    let d = resolve(&[
        ("GHA2DB_PROPAGATE_ONLY_VAR", "1"),
        ("ONLY", "a b c"),
        ("GHA2DB_PROJECTS_COMMITS", "x,y"),
    ]);
    assert_eq!(d.projects_commits, "x,y");
    let e = resolve(&[("ONLY", "a b c")]);
    assert_eq!(e.projects_commits, "");
    let f = resolve(&[("GHA2DB_PROPAGATE_ONLY_VAR", "1")]);
    assert_eq!(f.projects_commits, "");
}

#[test]
fn start_date_and_running_flag_age() {
    let c = resolve(&[
        ("GHA2DB_STARTDT", "2015-08-06 22:00:00"),
        ("GHA2DB_STARTDT_FORCE", "1"),
        ("GHA2DB_MAX_RUNNING_FLAG_AGE", "1h30m"),
    ]);
    assert_eq!(
        c.default_start_date,
        DateTime { year: 2015, month: 8, day: 6, hour: 22, minute: 0, second: 0 }
    );
    assert!(c.force_start_date);
    assert_eq!(c.max_running_flag_age.seconds(), 5400);
    assert_eq!(
        failure(&[("GHA2DB_STARTDT", "2015-08-06")]),
        malformed("GHA2DB_STARTDT", "2015-08-06", "date")
    );
    assert_eq!(
        failure(&[("GHA2DB_MAX_RUNNING_FLAG_AGE", "9")]),
        malformed("GHA2DB_MAX_RUNNING_FLAG_AGE", "9", "duration")
    );
}
