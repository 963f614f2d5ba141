//! The configuration snapshot and its resolution from the environment.

use crate::datetime::DateTime;
use crate::dict::{Dict, NameSet};
use crate::duration::Duration;
use crate::env::{env_is_empty, env_or_default, is_empty, lookup, value_or, Env, Vars};
use crate::error::{ConfigError, Failure, RunLimit};
use crate::list::{values, BoolSet};
use crate::number::{converts, decimal_value, string_to_num};
use crate::pattern::{pattern_failure, Matcher};
use crate::probe::{
    oauth_candidates, oauth_state, oauth_step, oauth_walk, OauthState, OauthStep, Probe,
};
use crate::setting::{
    date_failure, date_or, duration_failure, duration_or, ensure_colon, ensure_slash, env_date_time,
    env_duration, env_flag, env_names, env_number_or, env_numbers, env_overrides, env_pattern,
    env_periods, env_present, env_run_limits, env_strings, env_text, first_char, flag, guarded,
    guarded_number, keep_first_char, names_in, number_failure, number_or, numbers_failure,
    numbers_or, overrides_in, periods_in, present, run_limits_in, spaces_to_commas, strings_or,
    with_colon, with_slash,
};
use crate::text::{lemma_trimmed_empty_iff_blank, replaced};
use vstd::prelude::*;

verus! {

/// The settings of the toolchain, resolved once from the environment. Each
/// field says which variable it is read from; a variable that is absent or
/// blank leaves the field at its default.
#[derive(Debug)]
pub struct Ctx {
    /// Where the data files are; it ends with `/`.
    pub data_dir: String,
    /// Debug level: 0 none, 1 info, 2 verbose.
    pub debug: i8,
    /// Debug level of command execution: 0 none, 1 commands, 2 their output too, 3 the
    /// environment too.
    pub cmd_debug: i8,
    /// Debug level of the GitHub rate limits.
    pub github_debug: i8,
    /// Stop before any update is made.
    pub dry_run: bool,
    /// Write JSON files.
    pub json_out: bool,
    /// Write to the SQL database.
    pub db_out: bool,
    /// Run single-threaded; `set_cpus` decides it.
    pub st: bool,
    /// The number of CPUs to run on, 0 for all; `set_cpus` decides it.
    pub ncpus: u16,
    /// Database host.
    pub pg_host: String,
    /// Database port.
    pub pg_port: String,
    /// Database name.
    pub pg_db: String,
    /// Database user.
    pub pg_user: String,
    /// Database password.
    pub pg_pass: String,
    /// Database SSL mode.
    pub pg_ssl: String,
    /// Create the database indexes.
    pub index: bool,
    /// Create the table structure.
    pub table: bool,
    /// Create the database tools: views, summary tables and the like.
    pub tools: bool,
    /// The character that stands in for a key press, if any.
    pub mgetc: String,
    /// Print every SQL query.
    pub q_out: bool,
    /// Print this snapshot.
    pub ctx_out: bool,
    /// Print the time with every message.
    pub log_time: bool,
    /// The date from which data is taken where nothing else says.
    pub default_start_date: DateTime,
    /// Take the start date over what a project says.
    pub force_start_date: bool,
    /// The series that tells the date of the last data.
    pub last_series: String,
    /// Skip the time series.
    pub skip_tsdb: bool,
    /// Skip the database.
    pub skip_pdb: bool,
    /// Make every point of the time series again.
    pub reset_tsdb: bool,
    /// Make every past quick range again.
    pub reset_ranges: bool,
    /// Show the plan of a query in place of running it.
    pub explain: bool,
    /// Read the format that the archive had before 2015.
    pub old_format: bool,
    /// Take the names given as full names of repositories.
    pub exact: bool,
    /// Log into the database.
    pub log_to_db: bool,
    /// Take data files from the working directory.
    pub local: bool,
    /// Take data files by the path given.
    pub absolute: bool,
    /// Call the other tools from the working directory.
    pub local_cmd: bool,
    /// The file of the metrics.
    pub metrics_yaml: String,
    /// The file of the tags.
    pub tags_yaml: String,
    /// The file of the columns.
    pub columns_yaml: String,
    /// The file of the variables, with its path.
    pub vars_yaml: String,
    /// The file of the variables, without a path.
    pub vars_fn_yaml: String,
    /// The file of the dates to pass over.
    pub skip_dates_yaml: String,
    /// The file that holds the GitHub OAuth token, or `-` for access without one.
    pub github_oauth: String,
    /// The greatest age of an entry of the log.
    pub clear_db_period: String,
    /// The greatest age of the affiliations lock.
    pub clear_affs_lock_period: String,
    /// The greatest age of the giant lock.
    pub clear_giant_lock_period: String,
    /// The seconds to wait before each retry of a database operation.
    pub trials: Vec<i16>,
    /// The root of the webhook.
    pub webhook_root: String,
    /// The port of the webhook; it begins with `:`.
    pub webhook_port: String,
    /// The host of the webhook.
    pub webhook_host: String,
    /// Verify what the webhook receives.
    pub check_payload: bool,
    /// Heed requests for a full deploy.
    pub full_deploy: bool,
    /// The branches that are deployed.
    pub deploy_branches: Vec<String>,
    /// The build statuses that are deployed.
    pub deploy_statuses: Vec<String>,
    /// The build results that are deployed.
    pub deploy_results: Vec<i16>,
    /// The build types that are deployed.
    pub deploy_types: Vec<String>,
    /// The root of the project, for the webhook.
    pub project_root: String,
    /// End the process when a command fails.
    pub exec_fatal: bool,
    /// Say nothing when a command fails.
    pub exec_quiet: bool,
    /// Keep what a command prints.
    pub exec_output: bool,
    /// The name of the project.
    pub project: String,
    /// The file of the tests.
    pub tests_yaml: String,
    /// Where the repositories are checked out; it ends with `/`.
    pub repos_dir: String,
    /// Clone or pull every repository.
    pub process_repos: bool,
    /// Map each commit to the files it touches.
    pub process_commits: bool,
    /// Print what outside tools need.
    pub external_info: bool,
    /// The projects whose commits are analysed; empty for all.
    pub projects_commits: String,
    /// Take the projects of `ONLY` where a filter of projects is not set.
    pub propagate_only_var: bool,
    /// The file of the projects.
    pub projects_yaml: String,
    /// The file of the company acquisitions.
    pub company_acq_yaml: String,
    /// The projects that are always, or never, synchronised.
    pub projects_override: Dict<bool>,
    /// The file of the affiliations.
    pub affiliations_json: String,
    /// The repositories that are left out.
    pub exclude_repos: NameSet,
    /// The databases to merge, in order.
    pub input_dbs: Vec<String>,
    /// The database to merge into.
    pub output_db: String,
    /// The offset from UTC, in hours, by which metrics are scheduled.
    pub mm_offset: i8,
    /// The host name taken where none is known.
    pub default_hostname: String,
    /// How far back open issues and pull requests are checked.
    pub recent_range: String,
    /// How far back changed repositories are checked.
    pub recent_repos_range: String,
    /// The GitHub API points below which a tool waits for the reset.
    pub min_ghapi_points: i16,
    /// The seconds that a tool waits at most for the reset of the GitHub API points.
    pub max_ghapi_wait_seconds: i16,
    /// How often a call of the GitHub API is tried.
    pub max_ghapi_retry: i16,
    /// End the process on an error of the GitHub API.
    pub ghapi_error_is_fatal: bool,
    /// Make no call of the GitHub API.
    pub skip_ghapi: bool,
    /// Skip the events of the GitHub API.
    pub skip_api_events: bool,
    /// Skip the commits of the GitHub API.
    pub skip_api_commits: bool,
    /// Skip the licenses of the GitHub API.
    pub skip_api_licenses: bool,
    /// Fetch licenses again where they are known.
    pub force_api_licenses: bool,
    /// Skip the programming languages of the GitHub API.
    pub skip_api_langs: bool,
    /// Fetch programming languages again where they are known.
    pub force_api_langs: bool,
    /// Do nothing about repositories.
    pub skip_set_repos: bool,
    /// The file that a result is saved to, if any.
    pub csv_file: String,
    /// Compute every period, whatever the time.
    pub compute_all: bool,
    /// Filter by actor.
    pub actors_filter: bool,
    /// The actors that are taken, where actors are filtered.
    pub actors_allow: Option<Matcher>,
    /// The actors that are left out, where actors are filtered.
    pub actors_forbid: Option<Matcher>,
    /// The metrics that are left out.
    pub skip_metrics: NameSet,
    /// The metrics that alone are computed, where there are any.
    pub only_metrics: NameSet,
    /// Pass over JSON that cannot be read.
    pub allow_broken_json: bool,
    /// Where the JSON files of the website are; it ends with `/`.
    pub jsons_dir: String,
    /// Make the data of the website after a synchronisation.
    pub website_data: bool,
    /// Leave past events as they are.
    pub skip_update_events: bool,
    /// The periods that alone are computed, where there are any.
    pub compute_periods: Dict<BoolSet>,
    /// Fetch commits from the last one that is known.
    pub auto_fetch_commits: bool,
    /// Skip the tags tool.
    pub skip_tags: bool,
    /// Skip the annotations tool.
    pub skip_annotations: bool,
    /// Skip the columns tool.
    pub skip_columns: bool,
    /// Run the columns tool in any case.
    pub run_columns: bool,
    /// Skip the variables tool.
    pub skip_vars: bool,
    /// Compute the metrics in their given order.
    pub skip_rand: bool,
    /// The variables that are left out.
    pub exclude_vars: NameSet,
    /// The variables that alone are written, where there are any.
    pub only_vars: NameSet,
    /// Write nothing to the shared database.
    pub skip_shared_db: bool,
    /// Use no PID file.
    pub skip_pid_file: bool,
    /// Skip the company acquisitions.
    pub skip_company_acq: bool,
    /// Run only where the database is provisioned.
    pub check_provision_flag: bool,
    /// Run only where no other synchronisation runs.
    pub check_running_flag: bool,
    /// Mark the database while a synchronisation runs.
    pub set_running_flag: bool,
    /// The age from which a mark of a running synchronisation is stale.
    pub max_running_flag_age: Duration,
    /// Import a file only once.
    pub check_imported_sha: bool,
    /// Only say whether a file was imported.
    pub only_check_imported_sha: bool,
    /// Heed what a metric says is to be dropped.
    pub enable_metrics_drop: bool,
    /// The minutes after which a fetch of the archive is given up.
    pub http_timeout: i16,
    /// How often a fetch of the archive is tried.
    pub http_retry: i8,
    /// The name of the PID file, without directory and ending.
    pub pid_file_root: String,
    /// The shared database that a project names, if any.
    pub shared_db: String,
    /// The main repository that a project names, if any.
    pub project_main_repo: String,
    /// Whether tests are running.
    pub test_mode: bool,
    /// Whether one connection may be shared with the snapshots beside this one.
    pub can_reconnect: bool,
    /// Count the files of commits.
    pub commits_files_stats_enabled: bool,
    /// Count the lines of commits.
    pub commits_loc_stats_enabled: bool,
    /// One in so many computations is made again although its time has not come.
    pub recalc_reciprocal: i8,
    /// How many histograms are made at once, 0 for any number.
    pub max_histograms: i8,
    /// How long each program may run, and the status it leaves with.
    pub max_run_duration: Dict<RunLimit>,
    /// Let chance decide whether a period is computed at a date.
    pub rand_compute_at_this_date: bool,
    /// Make the roles of every commit again.
    pub refresh_commit_roles: bool,
    /// Let chance decide the hour at which tags and columns are computed.
    pub allow_rand_tags_cols_compute: bool,
}

/// The start date that is taken where none is set: 1 July 2012, 00:00:00.
pub open spec fn default_start_date() -> DateTime {
    DateTime { year: 2012, month: 7, day: 1, hour: 0, minute: 0, second: 0 }
}

/// The directory of the project below `metrics/`: the name of the project and
/// a `/`, or nothing where no project is named.
pub open spec fn project_dir(env: Vars) -> Seq<char> {
    let project = value_or(env, "GHA2DB_PROJECT"@, ""@);
    if project.len() == 0 {
        project
    } else {
        project + "/"@
    }
}

/// The default place of a file of the project.
pub open spec fn project_path(env: Vars, file: Seq<char>) -> Seq<char> {
    "metrics/"@ + project_dir(env) + file
}

/// The projects whose commits are analysed: those of their own variable, or,
/// where that names none and the propagation of `ONLY` is on, the projects of
/// `ONLY`, its spaces turned into commas.
pub open spec fn projects_commits_in(env: Vars) -> Seq<char> {
    let own = value_or(env, "GHA2DB_PROJECTS_COMMITS"@, ""@);
    if flag(env, "GHA2DB_PROPAGATE_ONLY_VAR"@) && own.len() == 0 && !is_empty(env, "ONLY"@) {
        replaced(value_or(env, "ONLY"@, ""@), ' ', ',')
    } else {
        own
    }
}

/// Where the search for the OAuth token stands, given the probes made.
pub open spec fn oauth_in(env: Vars, probes: Seq<Probe>) -> OauthState {
    oauth_state(value_or(env, "GHA2DB_GITHUB_OAUTH"@, ""@), probes)
}

/// What stops the search for the OAuth token: a probe that failed, or one
/// that the search needs and that was not made.
pub open spec fn oauth_failure(env: Vars, probes: Seq<Probe>) -> Option<Failure> {
    match oauth_in(env, probes) {
        OauthState::Resolved(_) => None,
        OauthState::Probe(path) => Some(Failure::ProbeNotMade { path }),
        OauthState::Failed(path) => Some(Failure::FilesystemProbeFailure { path }),
    }
}

/// What stops the reading of a run-duration map.
pub open spec fn run_limits_failure(env: Vars, name: Seq<char>) -> Option<Failure> {
    match run_limits_in(env, name) {
        Ok(_) => None,
        Err(e) => Some(e),
    }
}

/// The pattern that is to be compiled for a filter of actors: the value of the
/// variable, where actors are filtered and the variable is present.
pub open spec fn wanted_pattern(env: Vars, name: Seq<char>) -> Option<Seq<char>> {
    if flag(env, "GHA2DB_ACTORS_FILTER"@) {
        present(env, name)
    } else {
        None
    }
}

/// What stops the reading of the number of CPUs: a value that is present and
/// is no integer, or is an integer above what the count can hold. An integer
/// below 1 stops nothing: it is passed over.
pub open spec fn cpus_failure(env: Vars) -> Option<Failure> {
    match present(env, "GHA2DB_NCPUS"@) {
        Some(v) => if converts::<i64>(v) && decimal_value(v) <= u16::MAX {
            None
        } else {
            Some(Failure::MalformedValue { variable: "GHA2DB_NCPUS"@, value: v, target: "u16"@ })
        },
        None => None,
    }
}

/// The number of CPUs after `set_cpus`: the value of `GHA2DB_NCPUS` where it
/// is above 0, else what it was.
pub open spec fn cpus_in(env: Vars, before: int) -> int {
    guarded(env, "GHA2DB_NCPUS"@, 1, before)
}

/// Whether the run is single-threaded: `GHA2DB_ST` is on, or `GHA2DB_NCPUS`
/// says 1.
pub open spec fn single_threaded_in(env: Vars) -> bool {
    flag(env, "GHA2DB_ST"@) || number_or(env, "GHA2DB_NCPUS"@, 0) == 1
}

/// The first of two failures.
pub open spec fn or_else(first: Option<Failure>, second: Option<Failure>) -> Option<Failure> {
    if first is Some {
        first
    } else {
        second
    }
}

/// What stops `Ctx::default`, but for a pattern that does not compile: the
/// first failure among the settings, in the order of the fields.
pub open spec fn default_failure(env: Vars, probes: Seq<Probe>) -> Option<Failure> {
    let f = number_failure::<i8>(env, "GHA2DB_DEBUG"@);
    let f = or_else(f, number_failure::<i8>(env, "GHA2DB_CMDDEBUG"@));
    let f = or_else(f, number_failure::<i8>(env, "GHA2DB_GITHUB_DEBUG"@));
    let f = or_else(f, date_failure(env, "GHA2DB_STARTDT"@));
    let f = or_else(f, oauth_failure(env, probes));
    let f = or_else(f, numbers_failure::<i16>(env, "GHA2DB_TRIALS"@));
    let f = or_else(f, numbers_failure::<i16>(env, "GHA2DB_DEPLOY_RESULTS"@));
    let f = or_else(f, number_failure::<i8>(env, "GHA2DB_TMOFFSET"@));
    let f = or_else(f, number_failure::<i16>(env, "GHA2DB_MIN_GHAPI_POINTS"@));
    let f = or_else(f, number_failure::<i16>(env, "GHA2DB_MAX_GHAPI_WAIT"@));
    let f = or_else(f, number_failure::<i16>(env, "GHA2DB_MAX_GHAPI_RETRY"@));
    let f = or_else(f, duration_failure(env, "GHA2DB_MAX_RUNNING_FLAG_AGE"@));
    let f = or_else(f, number_failure::<i16>(env, "GHA2DB_HTTP_TIMEOUT"@));
    let f = or_else(f, number_failure::<i8>(env, "GHA2DB_HTTP_RETRY"@));
    let f = or_else(f, number_failure::<i8>(env, "GHA2DB_RECALC_RECIPROCAL"@));
    let f = or_else(f, number_failure::<i8>(env, "GHA2DB_MAX_HIST"@));
    let f = or_else(f, run_limits_failure(env, "GHA2DB_MAX_RUN_DURATION"@));
    f
}

/// Whether `e` is the failure of a pattern that is wanted.
pub open spec fn pattern_stops(env: Vars, e: Failure) -> bool {
    ||| wanted_pattern(env, "GHA2DB_ACTORS_ALLOW"@) matches Some(p) && e == pattern_failure(
        "GHA2DB_ACTORS_ALLOW"@,
        p,
    )
    ||| wanted_pattern(env, "GHA2DB_ACTORS_FORBID"@) matches Some(p) && e == pattern_failure(
        "GHA2DB_ACTORS_FORBID"@,
        p,
    )
}

/// What stops `Ctx::new`, but for a pattern that does not compile.
pub open spec fn failure(env: Vars, probes: Seq<Probe>) -> Option<Failure> {
    or_else(default_failure(env, probes), cpus_failure(env))
}

impl Ctx {
    /// What each field but `st` and `ncpus` holds in a snapshot resolved from
    /// `env` and `probes`.
    pub open spec fn settings(self, env: Vars, probes: Seq<Probe>) -> bool {
        &&& self.data_dir@ == with_slash(value_or(env, "GHA2DB_DATADIR"@, "/etc/gha2db/"@))
        &&& self.debug == number_or(env, "GHA2DB_DEBUG"@, 0)
        &&& self.cmd_debug == number_or(env, "GHA2DB_CMDDEBUG"@, 0)
        &&& self.github_debug == number_or(env, "GHA2DB_GITHUB_DEBUG"@, 0)
        &&& self.dry_run == flag(env, "GHA2DB_DRY_RUN"@)
        &&& self.json_out == flag(env, "GHA2DB_JSON"@)
        &&& self.db_out == is_empty(env, "GHA2DB_NODB"@)
        &&& self.pg_host@ == value_or(env, "PG_HOST"@, "localhost"@)
        &&& self.pg_port@ == value_or(env, "PG_PORT"@, "5432"@)
        &&& self.pg_db@ == value_or(env, "PG_DB"@, "gha"@)
        &&& self.pg_user@ == value_or(env, "PG_USER"@, "gha_admin"@)
        &&& self.pg_pass@ == value_or(env, "PG_PASS"@, "password"@)
        &&& self.pg_ssl@ == value_or(env, "PG_SSL"@, "disable"@)
        &&& self.index == flag(env, "GHA2DB_INDEX"@)
        &&& self.table == is_empty(env, "GHA2DB_SKIPTABLE"@)
        &&& self.tools == is_empty(env, "GHA2DB_SKIPTOOLS"@)
        &&& self.mgetc@ == first_char(value_or(env, "GHA2DB_MGETC"@, ""@))
        &&& self.q_out == flag(env, "GHA2DB_QOUT"@)
        &&& self.ctx_out == flag(env, "GHA2DB_CTXOUT"@)
        &&& self.log_time == is_empty(env, "GHA2DB_SKIPTIME"@)
        &&& self.default_start_date == date_or(env, "GHA2DB_STARTDT"@, default_start_date())
        &&& self.force_start_date == flag(env, "GHA2DB_STARTDT_FORCE"@)
        &&& self.last_series@ == value_or(env, "GHA2DB_LASTSERIES"@, "events_h"@)
        &&& self.skip_tsdb == flag(env, "GHA2DB_SKIPTSDB"@)
        &&& self.skip_pdb == flag(env, "GHA2DB_SKIPPDB"@)
        &&& self.reset_tsdb == flag(env, "GHA2DB_RESETTSDB"@)
        &&& self.reset_ranges == flag(env, "GHA2DB_RESETRANGES"@)
        &&& self.explain == flag(env, "GHA2DB_EXPLAIN"@)
        &&& self.old_format == flag(env, "GHA2DB_OLDFMT"@)
        &&& self.exact == flag(env, "GHA2DB_EXACT"@)
        &&& self.log_to_db == is_empty(env, "GHA2DB_SKIPLOG"@)
        &&& self.local == flag(env, "GHA2DB_LOCAL"@)
        &&& self.absolute == flag(env, "GHA2DB_ABSOLUTE"@)
        &&& self.local_cmd == flag(env, "GHA2DB_LOCAL_CMD"@)
        &&& self.metrics_yaml@ == value_or(
            env, "GHA2DB_METRICS_YAML"@, project_path(env, "metrics.yaml"@),
        )
        &&& self.tags_yaml@ == value_or(env, "GHA2DB_TAGS_YAML"@, project_path(env, "tags.yaml"@))
        &&& self.columns_yaml@ == value_or(
            env, "GHA2DB_COLUMNS_YAML"@, project_path(env, "columns.yaml"@),
        )
        &&& self.vars_yaml@ == value_or(
            env, "GHA2DB_VARS_YAML"@, project_path(env, self.vars_fn_yaml@),
        )
        &&& self.vars_fn_yaml@ == value_or(env, "GHA2DB_VARS_FN_YAML"@, "vars.yaml"@)
        &&& self.skip_dates_yaml@ == value_or(env, "GHA2DB_SKIP_DATES_YAML"@, "skip_dates.yaml"@)
        &&& oauth_in(env, probes) == OauthState::Resolved(self.github_oauth@)
        &&& self.clear_db_period@ == value_or(env, "GHA2DB_MAXLOGAGE"@, "1 week"@)
        &&& self.clear_affs_lock_period@ == value_or(env, "GHA2DB_MAX_AFFS_LOCK_AGE"@, "16 hours"@)
        &&& self.clear_giant_lock_period@ == value_or(
            env, "GHA2DB_MAX_GIANT_LOCK_AGE"@, "40 hours"@,
        )
        &&& values(self.trials@) == numbers_or::<i16>(
            env, "GHA2DB_TRIALS"@, seq![10int, 30, 60, 120, 300, 600, 1200, 3600],
        )
        &&& self.webhook_root@ == value_or(env, "GHA2DB_WHROOT"@, "/hook"@)
        &&& self.webhook_port@ == with_colon(value_or(env, "GHA2DB_WHPORT"@, ":1982"@))
        &&& self.webhook_host@ == value_or(env, "GHA2DB_WHHOST"@, "127.0.0.1"@)
        &&& self.check_payload == is_empty(env, "GHA2DB_SKIP_VERIFY_PAYLOAD"@)
        &&& self.full_deploy == is_empty(env, "GHA2DB_SKIP_FULL_DEPLOY"@)
        &&& self.deploy_branches.deep_view() == strings_or(
            env, "GHA2DB_DEPLOY_BRANCHES"@, seq!["master"@],
        )
        &&& self.deploy_statuses.deep_view() == strings_or(
            env, "GHA2DB_DEPLOY_STATUSES"@, seq!["Passed"@, "Fixed"@],
        )
        &&& values(self.deploy_results@) == numbers_or::<i16>(
            env, "GHA2DB_DEPLOY_RESULTS"@, seq![0int],
        )
        &&& self.deploy_types.deep_view() == strings_or(env, "GHA2DB_DEPLOY_TYPES"@, seq!["push"@])
        &&& self.project_root@ == value_or(env, "GHA2DB_PROJECT_ROOT"@, ""@)
        &&& self.exec_fatal
        &&& !self.exec_quiet
        &&& !self.exec_output
        &&& self.project@ == value_or(env, "GHA2DB_PROJECT"@, ""@)
        &&& self.tests_yaml@ == value_or(env, "GHA2DB_TESTS_YAML"@, "tests.yaml"@)
        &&& self.repos_dir@ == with_slash(
            value_or(env, "GHA2DB_REPOS_DIR"@, value_or(env, "HOME"@, ""@) + "/devstats_repos/"@),
        )
        &&& self.process_repos == flag(env, "GHA2DB_PROCESS_REPOS"@)
        &&& self.process_commits == flag(env, "GHA2DB_PROCESS_COMMITS"@)
        &&& self.external_info == flag(env, "GHA2DB_EXTERNAL_INFO"@)
        &&& self.projects_commits@ == projects_commits_in(env)
        &&& self.propagate_only_var == flag(env, "GHA2DB_PROPAGATE_ONLY_VAR"@)
        &&& self.projects_yaml@ == value_or(env, "GHA2DB_PROJECTS_YAML"@, "projects.yaml"@)
        &&& self.company_acq_yaml@ == value_or(env, "GHA2DB_COMPANY_ACQ_YAML"@, "companies.yaml"@)
        &&& self.projects_override.wf()
        &&& self.projects_override@ == overrides_in(env, "GHA2DB_PROJECTS_OVERRIDE"@)
        &&& self.affiliations_json@ == value_or(
            env, "GHA2DB_AFFILIATIONS_JSON"@, "github_users.json"@,
        )
        &&& self.exclude_repos.wf()
        &&& self.exclude_repos@ == names_in(env, "GHA2DB_EXCLUDE_REPOS"@)
        &&& self.input_dbs.deep_view() == strings_or(
            env, "GHA2DB_INPUT_DBS"@, Seq::<Seq<char>>::empty(),
        )
        &&& self.output_db@ == value_or(env, "GHA2DB_OUTPUT_DB"@, ""@)
        &&& self.mm_offset == number_or(env, "GHA2DB_TMOFFSET"@, 0)
        &&& self.default_hostname@ == "devstats.cncf.io"@
        &&& self.recent_range@ == value_or(env, "GHA2DB_RECENT_RANGE"@, "2 hours"@)
        &&& self.recent_repos_range@ == value_or(env, "GHA2DB_RECENT_REPOS_RANGE"@, "1 day"@)
        &&& self.min_ghapi_points == guarded(env, "GHA2DB_MIN_GHAPI_POINTS"@, 0, 1)
        &&& self.max_ghapi_wait_seconds == guarded(env, "GHA2DB_MAX_GHAPI_WAIT"@, 0, 10)
        &&& self.max_ghapi_retry == guarded(env, "GHA2DB_MAX_GHAPI_RETRY"@, 1, 6)
        &&& self.ghapi_error_is_fatal == flag(env, "GHA2DB_GHAPI_ERROR_FATAL"@)
        &&& self.skip_ghapi == flag(env, "GHA2DB_GHAPISKIP"@)
        &&& self.skip_api_events == flag(env, "GHA2DB_GHAPISKIPEVENTS"@)
        &&& self.skip_api_commits == flag(env, "GHA2DB_GHAPISKIPCOMMITS"@)
        &&& self.skip_api_licenses == flag(env, "GHA2DB_GHAPISKIPLICENSES"@)
        &&& self.force_api_licenses == flag(env, "GHA2DB_GHAPIFORCELICENSES"@)
        &&& self.skip_api_langs == flag(env, "GHA2DB_GHAPISKIPLANGS"@)
        &&& self.force_api_langs == flag(env, "GHA2DB_GHAPIFORCELANGS"@)
        &&& self.skip_set_repos == flag(env, "GHA2DB_GETREPOSSKIP"@)
        &&& self.csv_file@ == value_or(env, "GHA2DB_CSVOUT"@, ""@)
        &&& self.compute_all == flag(env, "GHA2DB_COMPUTE_ALL"@)
        &&& self.actors_filter == flag(env, "GHA2DB_ACTORS_FILTER"@)
        &&& match self.actors_allow {
            Some(m) => wanted_pattern(env, "GHA2DB_ACTORS_ALLOW"@) == Some(m.pattern@),
            None => wanted_pattern(env, "GHA2DB_ACTORS_ALLOW"@) is None,
        }
        &&& match self.actors_forbid {
            Some(m) => wanted_pattern(env, "GHA2DB_ACTORS_FORBID"@) == Some(m.pattern@),
            None => wanted_pattern(env, "GHA2DB_ACTORS_FORBID"@) is None,
        }
        &&& self.skip_metrics.wf()
        &&& self.skip_metrics@ == names_in(env, "GHA2DB_SKIP_METRICS"@)
        &&& self.only_metrics.wf()
        &&& self.only_metrics@ == names_in(env, "GHA2DB_ONLY_METRICS"@)
        &&& self.allow_broken_json == flag(env, "GHA2DB_ALLOW_BROKEN_JSON"@)
        &&& self.jsons_dir@ == with_slash(value_or(env, "GHA2DB_JSONS_DIR"@, "./jsons/"@))
        &&& self.website_data == flag(env, "GHA2DB_WEBSITEDATA"@)
        &&& self.skip_update_events == flag(env, "GHA2DB_SKIP_UPDATE_EVENTS"@)
        &&& self.compute_periods.wf()
        &&& self.compute_periods@ == periods_in(env, "GHA2DB_FORCE_PERIODS"@)
        &&& self.auto_fetch_commits == is_empty(env, "GHA2DB_NO_AUTOFETCHCOMMITS"@)
        &&& self.skip_tags == flag(env, "GHA2DB_SKIP_TAGS"@)
        &&& self.skip_annotations == flag(env, "GHA2DB_SKIP_ANNOTATIONS"@)
        &&& self.skip_columns == flag(env, "GHA2DB_SKIP_COLUMNS"@)
        &&& self.run_columns == flag(env, "GHA2DB_RUN_COLUMNS"@)
        &&& self.skip_vars == flag(env, "GHA2DB_SKIP_VARS"@)
        &&& self.skip_rand == flag(env, "GHA2DB_SKIP_RAND"@)
        &&& self.exclude_vars.wf()
        &&& self.exclude_vars@ == names_in(env, "GHA2DB_EXCLUDE_VARS"@)
        &&& self.only_vars.wf()
        &&& self.only_vars@ == names_in(env, "GHA2DB_ONLY_VARS"@)
        &&& self.skip_shared_db == flag(env, "GHA2DB_SKIP_SHAREDDB"@)
        &&& self.skip_pid_file == flag(env, "GHA2DB_SKIP_PIDFILE"@)
        &&& self.skip_company_acq == flag(env, "GHA2DB_SKIP_COMPANY_ACQ"@)
        &&& self.check_provision_flag == flag(env, "GHA2DB_CHECK_PROVISION_FLAG"@)
        &&& self.check_running_flag == flag(env, "GHA2DB_CHECK_RUNNING_FLAG"@)
        &&& self.set_running_flag == flag(env, "GHA2DB_SET_RUNNING_FLAG"@)
        &&& self.max_running_flag_age.nanos == duration_or(
            env, "GHA2DB_MAX_RUNNING_FLAG_AGE"@, 32_400_000_000_000,
        )
        &&& self.check_imported_sha == flag(env, "GHA2DB_CHECK_IMPORTED_SHA"@)
        &&& self.only_check_imported_sha == flag(env, "GHA2DB_ONLY_CHECK_IMPORTED_SHA"@)
        &&& self.enable_metrics_drop == flag(env, "GHA2DB_ENABLE_METRICS_DROP"@)
        &&& self.http_timeout == number_or(env, "GHA2DB_HTTP_TIMEOUT"@, 3)
        &&& self.http_retry == number_or(env, "GHA2DB_HTTP_RETRY"@, 5)
        &&& self.pid_file_root@ == value_or(env, "GHA2DB_PID_FILE_ROOT"@, "devstats"@)
        &&& self.shared_db@ == ""@
        &&& self.project_main_repo@ == ""@
        &&& !self.test_mode
        &&& self.can_reconnect
        &&& self.commits_files_stats_enabled == is_empty(env, "GHA2DB_SKIP_COMMITS_FILES"@)
        &&& self.commits_loc_stats_enabled == is_empty(env, "GHA2DB_SKIP_COMMITS_LOC"@)
        &&& self.recalc_reciprocal == guarded(env, "GHA2DB_RECALC_RECIPROCAL"@, 1, 24)
        &&& self.max_histograms == guarded(env, "GHA2DB_MAX_HIST"@, 1, 0)
        &&& self.max_run_duration.wf()
        &&& Ok::<Map<Seq<char>, RunLimit>, Failure>(self.max_run_duration@) == run_limits_in(
            env, "GHA2DB_MAX_RUN_DURATION"@,
        )
        &&& self.rand_compute_at_this_date
        &&& self.refresh_commit_roles == flag(env, "GHA2DB_REFRESH_COMMIT_ROLES"@)
        &&& !self.allow_rand_tags_cols_compute
    }

    /// What a snapshot resolved from `env` and `probes` holds.
    pub open spec fn resolved(self, env: Vars, probes: Seq<Probe>) -> bool {
        &&& self.settings(env, probes)
        &&& self.st == single_threaded_in(env)
        &&& self.ncpus == cpus_in(env, 0)
    }
}

/// The default place of the file `file` of the project.
fn project_file(project_dir: &String, file: &str) -> (r: String)
    ensures
        r@ == "metrics/"@ + project_dir@ + file@,
{
    "metrics/".to_owned().concat(project_dir.as_str()).concat(file)
}

/// The directory of the project below `metrics/`.
fn project_directory(env: &Env) -> (r: String)
    ensures
        r@ == project_dir(env@),
{
    let project = env_text(env, "GHA2DB_PROJECT", "");
    if project.as_str().is_empty() {
        project
    } else {
        project.concat("/")
    }
}

/// The projects whose commits are analysed.
fn commits_projects(env: &Env) -> (r: String)
    ensures
        r@ == projects_commits_in(env@),
{
    let own = env_text(env, "GHA2DB_PROJECTS_COMMITS", "");
    if env_flag(env, "GHA2DB_PROPAGATE_ONLY_VAR") && own.as_str().is_empty() && !env_is_empty(
        env,
        "ONLY",
    ) {
        spaces_to_commas(env_text(env, "ONLY", "").as_str())
    } else {
        own
    }
}

/// The path of the OAuth token, or the probe that stops the search for it.
fn oauth_path(env: &Env, probes: &Vec<Probe>) -> (r: Result<String, ConfigError>)
    ensures
        r is Ok <==> oauth_failure(env@, probes@) is None,
        r matches Ok(path) ==> oauth_in(env@, probes@) == OauthState::Resolved(path@),
        r matches Err(e) ==> Some(e@) == oauth_failure(env@, probes@),
{
    let configured = env_text(env, "GHA2DB_GITHUB_OAUTH", "");
    match oauth_step(configured.as_str(), probes) {
        OauthStep::Resolved(path) => Ok(path),
        OauthStep::Probe(path) => Err(ConfigError::ProbeNotMade { path }),
        OauthStep::Failed(path) => Err(ConfigError::FilesystemProbeFailure { path }),
    }
}

/// The compiled pattern of a filter of actors, where one is wanted.
fn actor_pattern(env: &Env, name: &str) -> (r: Result<Option<Matcher>, ConfigError>)
    ensures
        r matches Ok(m) ==> (m is Some <==> wanted_pattern(env@, name@) is Some),
        r matches Ok(Some(m)) ==> Some(m.pattern@) == wanted_pattern(env@, name@),
        r matches Err(e) ==> wanted_pattern(env@, name@) matches Some(p) && e@ == pattern_failure(
            name@,
            p,
        ),
{
    if env_flag(env, "GHA2DB_ACTORS_FILTER") {
        env_pattern(env, name)
    } else {
        Ok(None)
    }
}

/// The number that `GHA2DB_NCPUS` gives, read as a wide integer so that a
/// number below 1 is told from text that is no number; 0 where the variable
/// is empty.
fn cpus_given(env: &Env) -> (r: Result<i64, ConfigError>)
    ensures
        r is Ok <==> cpus_failure(env@) is None,
        r matches Ok(n) ==> n == number_or(env@, "GHA2DB_NCPUS"@, 0) && n <= u16::MAX,
        r matches Err(e) ==> Some(e@) == cpus_failure(env@),
{
    match env_present(env, "GHA2DB_NCPUS") {
        None => Ok(0),
        Some(v) => match string_to_num::<i64>(v) {
            Ok(n) => if n <= 65535 {
                Ok(n)
            } else {
                Err(
                    ConfigError::MalformedValue {
                        variable: "GHA2DB_NCPUS".to_owned(),
                        value: v.to_owned(),
                        target: "u16".to_owned(),
                    },
                )
            },
            Err(e) => Err(
                ConfigError::MalformedValue {
                    variable: "GHA2DB_NCPUS".to_owned(),
                    value: e.value,
                    target: "u16".to_owned(),
                },
            ),
        },
    }
}

impl Ctx {
    /// Resolves every setting but the two of `set_cpus`, which are left at
    /// `false` and 0. The settings that can fail are read first, in the order
    /// of the fields and the patterns last, and the first that fails stops the
    /// resolution.
    pub fn default(env: &Env, probes: &Vec<Probe>) -> (r: Result<Ctx, ConfigError>)
        ensures
            match r {
                Ok(c) => default_failure(env@, probes@) is None && c.settings(env@, probes@)
                    && !c.st && c.ncpus == 0,
                Err(e) => match default_failure(env@, probes@) {
                    Some(f) => e@ == f,
                    None => pattern_stops(env@, e@),
                },
            },
    {
        let project_dir = project_directory(env);
        let debug = match env_number_or::<i8>(env, "GHA2DB_DEBUG", 0) {
            Ok(v) => v,
            Err(e) => {
                return Err(e);
            },
        };
        let cmd_debug = match env_number_or::<i8>(env, "GHA2DB_CMDDEBUG", 0) {
            Ok(v) => v,
            Err(e) => {
                return Err(e);
            },
        };
        let github_debug = match env_number_or::<i8>(env, "GHA2DB_GITHUB_DEBUG", 0) {
            Ok(v) => v,
            Err(e) => {
                return Err(e);
            },
        };
        let default_start_date = match env_date_time(
            env,
            "GHA2DB_STARTDT",
            DateTime { year: 2012, month: 7, day: 1, hour: 0, minute: 0, second: 0 },
        ) {
            Ok(v) => v,
            Err(e) => {
                return Err(e);
            },
        };
        let github_oauth = match oauth_path(env, probes) {
            Ok(v) => v,
            Err(e) => {
                return Err(e);
            },
        };
        let trials_default: Vec<i16> = vec![10, 30, 60, 120, 300, 600, 1200, 3600];
        assert(values(trials_default@) =~= seq![10int, 30, 60, 120, 300, 600, 1200, 3600]);
        let trials = match env_numbers::<i16>(env, "GHA2DB_TRIALS", trials_default) {
            Ok(v) => v,
            Err(e) => {
                return Err(e);
            },
        };
        let deploy_results_default: Vec<i16> = vec![0];
        assert(values(deploy_results_default@) =~= seq![0int]);
        let deploy_results = match env_numbers::<i16>(
            env, "GHA2DB_DEPLOY_RESULTS", deploy_results_default,
        ) {
            Ok(v) => v,
            Err(e) => {
                return Err(e);
            },
        };
        let mm_offset = match env_number_or::<i8>(env, "GHA2DB_TMOFFSET", 0) {
            Ok(v) => v,
            Err(e) => {
                return Err(e);
            },
        };
        let min_ghapi_points = match guarded_number::<i16>(env, "GHA2DB_MIN_GHAPI_POINTS", 0, 1) {
            Ok(v) => v,
            Err(e) => {
                return Err(e);
            },
        };
        let max_ghapi_wait_seconds = match guarded_number::<i16>(
            env, "GHA2DB_MAX_GHAPI_WAIT", 0, 10,
        ) {
            Ok(v) => v,
            Err(e) => {
                return Err(e);
            },
        };
        let max_ghapi_retry = match guarded_number::<i16>(env, "GHA2DB_MAX_GHAPI_RETRY", 1, 6) {
            Ok(v) => v,
            Err(e) => {
                return Err(e);
            },
        };
        let max_running_flag_age = match env_duration(
            env, "GHA2DB_MAX_RUNNING_FLAG_AGE", Duration { nanos: 32_400_000_000_000 },
        ) {
            Ok(v) => v,
            Err(e) => {
                return Err(e);
            },
        };
        let http_timeout = match env_number_or::<i16>(env, "GHA2DB_HTTP_TIMEOUT", 3) {
            Ok(v) => v,
            Err(e) => {
                return Err(e);
            },
        };
        let http_retry = match env_number_or::<i8>(env, "GHA2DB_HTTP_RETRY", 5) {
            Ok(v) => v,
            Err(e) => {
                return Err(e);
            },
        };
        let recalc_reciprocal = match guarded_number::<i8>(env, "GHA2DB_RECALC_RECIPROCAL", 1, 24) {
            Ok(v) => v,
            Err(e) => {
                return Err(e);
            },
        };
        let max_histograms = match guarded_number::<i8>(env, "GHA2DB_MAX_HIST", 1, 0) {
            Ok(v) => v,
            Err(e) => {
                return Err(e);
            },
        };
        let max_run_duration = match env_run_limits(env, "GHA2DB_MAX_RUN_DURATION") {
            Ok(v) => v,
            Err(e) => {
                return Err(e);
            },
        };
        let actors_allow = match actor_pattern(env, "GHA2DB_ACTORS_ALLOW") {
            Ok(v) => v,
            Err(e) => {
                return Err(e);
            },
        };
        let actors_forbid = match actor_pattern(env, "GHA2DB_ACTORS_FORBID") {
            Ok(v) => v,
            Err(e) => {
                return Err(e);
            },
        };
        let data_dir: String = ensure_slash(env_text(env, "GHA2DB_DATADIR", "/etc/gha2db/"));
        let dry_run: bool = env_flag(env, "GHA2DB_DRY_RUN");
        let json_out: bool = env_flag(env, "GHA2DB_JSON");
        let db_out: bool = env_is_empty(env, "GHA2DB_NODB");
        let st: bool = false;
        let ncpus: u16 = 0;
        let pg_host: String = env_text(env, "PG_HOST", "localhost");
        let pg_port: String = env_text(env, "PG_PORT", "5432");
        let pg_db: String = env_text(env, "PG_DB", "gha");
        let pg_user: String = env_text(env, "PG_USER", "gha_admin");
        let pg_pass: String = env_text(env, "PG_PASS", "password");
        let pg_ssl: String = env_text(env, "PG_SSL", "disable");
        let index: bool = env_flag(env, "GHA2DB_INDEX");
        let table: bool = env_is_empty(env, "GHA2DB_SKIPTABLE");
        let tools: bool = env_is_empty(env, "GHA2DB_SKIPTOOLS");
        let mgetc: String = keep_first_char(env_text(env, "GHA2DB_MGETC", ""));
        let q_out: bool = env_flag(env, "GHA2DB_QOUT");
        let ctx_out: bool = env_flag(env, "GHA2DB_CTXOUT");
        let log_time: bool = env_is_empty(env, "GHA2DB_SKIPTIME");
        let force_start_date: bool = env_flag(env, "GHA2DB_STARTDT_FORCE");
        let last_series: String = env_text(env, "GHA2DB_LASTSERIES", "events_h");
        let skip_tsdb: bool = env_flag(env, "GHA2DB_SKIPTSDB");
        let skip_pdb: bool = env_flag(env, "GHA2DB_SKIPPDB");
        let reset_tsdb: bool = env_flag(env, "GHA2DB_RESETTSDB");
        let reset_ranges: bool = env_flag(env, "GHA2DB_RESETRANGES");
        let explain: bool = env_flag(env, "GHA2DB_EXPLAIN");
        let old_format: bool = env_flag(env, "GHA2DB_OLDFMT");
        let exact: bool = env_flag(env, "GHA2DB_EXACT");
        let log_to_db: bool = env_is_empty(env, "GHA2DB_SKIPLOG");
        let local: bool = env_flag(env, "GHA2DB_LOCAL");
        let absolute: bool = env_flag(env, "GHA2DB_ABSOLUTE");
        let local_cmd: bool = env_flag(env, "GHA2DB_LOCAL_CMD");
        let metrics_yaml: String = env_or_default(
            env, "GHA2DB_METRICS_YAML", project_file(&project_dir, "metrics.yaml"),
        );
        let tags_yaml: String = env_or_default(
            env, "GHA2DB_TAGS_YAML", project_file(&project_dir, "tags.yaml"),
        );
        let columns_yaml: String = env_or_default(
            env, "GHA2DB_COLUMNS_YAML", project_file(&project_dir, "columns.yaml"),
        );
        let vars_fn_yaml: String = env_text(env, "GHA2DB_VARS_FN_YAML", "vars.yaml");
        let vars_yaml: String = env_or_default(
            env, "GHA2DB_VARS_YAML", project_file(&project_dir, vars_fn_yaml.as_str()),
        );
        let skip_dates_yaml: String = env_text(env, "GHA2DB_SKIP_DATES_YAML", "skip_dates.yaml");
        let clear_db_period: String = env_text(env, "GHA2DB_MAXLOGAGE", "1 week");
        let clear_affs_lock_period: String = env_text(env, "GHA2DB_MAX_AFFS_LOCK_AGE", "16 hours");
        let clear_giant_lock_period: String = env_text(
            env, "GHA2DB_MAX_GIANT_LOCK_AGE", "40 hours",
        );
        let webhook_root: String = env_text(env, "GHA2DB_WHROOT", "/hook");
        let webhook_port: String = ensure_colon(env_text(env, "GHA2DB_WHPORT", ":1982"));
        let webhook_host: String = env_text(env, "GHA2DB_WHHOST", "127.0.0.1");
        let check_payload: bool = env_is_empty(env, "GHA2DB_SKIP_VERIFY_PAYLOAD");
        let full_deploy: bool = env_is_empty(env, "GHA2DB_SKIP_FULL_DEPLOY");
        let deploy_branches_default: Vec<String> = vec!["master".to_owned()];
        assert(deploy_branches_default.deep_view() =~= seq!["master"@]);
        let deploy_branches: Vec<String> = env_strings(
            env, "GHA2DB_DEPLOY_BRANCHES", deploy_branches_default,
        );
        let deploy_statuses_default: Vec<String> = vec!["Passed".to_owned(), "Fixed".to_owned()];
        assert(deploy_statuses_default.deep_view() =~= seq!["Passed"@, "Fixed"@]);
        let deploy_statuses: Vec<String> = env_strings(
            env, "GHA2DB_DEPLOY_STATUSES", deploy_statuses_default,
        );
        let deploy_types_default: Vec<String> = vec!["push".to_owned()];
        assert(deploy_types_default.deep_view() =~= seq!["push"@]);
        let deploy_types: Vec<String> = env_strings(
            env, "GHA2DB_DEPLOY_TYPES", deploy_types_default,
        );
        let project_root: String = env_text(env, "GHA2DB_PROJECT_ROOT", "");
        let exec_fatal: bool = true;
        let exec_quiet: bool = false;
        let exec_output: bool = false;
        let project: String = env_text(env, "GHA2DB_PROJECT", "");
        let tests_yaml: String = env_text(env, "GHA2DB_TESTS_YAML", "tests.yaml");
        let repos_dir: String = ensure_slash(
            env_or_default(
                env, "GHA2DB_REPOS_DIR", env_text(env, "HOME", "").concat("/devstats_repos/"),
            ),
        );
        let process_repos: bool = env_flag(env, "GHA2DB_PROCESS_REPOS");
        let process_commits: bool = env_flag(env, "GHA2DB_PROCESS_COMMITS");
        let external_info: bool = env_flag(env, "GHA2DB_EXTERNAL_INFO");
        let projects_commits: String = commits_projects(env);
        let propagate_only_var: bool = env_flag(env, "GHA2DB_PROPAGATE_ONLY_VAR");
        let projects_yaml: String = env_text(env, "GHA2DB_PROJECTS_YAML", "projects.yaml");
        let company_acq_yaml: String = env_text(env, "GHA2DB_COMPANY_ACQ_YAML", "companies.yaml");
        let projects_override: Dict<bool> = env_overrides(env, "GHA2DB_PROJECTS_OVERRIDE");
        let affiliations_json: String = env_text(
            env, "GHA2DB_AFFILIATIONS_JSON", "github_users.json",
        );
        let exclude_repos: NameSet = env_names(env, "GHA2DB_EXCLUDE_REPOS");
        let input_dbs_default: Vec<String> = Vec::new();
        assert(input_dbs_default.deep_view() =~= Seq::<Seq<char>>::empty());
        let input_dbs: Vec<String> = env_strings(env, "GHA2DB_INPUT_DBS", input_dbs_default);
        let output_db: String = env_text(env, "GHA2DB_OUTPUT_DB", "");
        let default_hostname: String = "devstats.cncf.io".to_owned();
        let recent_range: String = env_text(env, "GHA2DB_RECENT_RANGE", "2 hours");
        let recent_repos_range: String = env_text(env, "GHA2DB_RECENT_REPOS_RANGE", "1 day");
        let ghapi_error_is_fatal: bool = env_flag(env, "GHA2DB_GHAPI_ERROR_FATAL");
        let skip_ghapi: bool = env_flag(env, "GHA2DB_GHAPISKIP");
        let skip_api_events: bool = env_flag(env, "GHA2DB_GHAPISKIPEVENTS");
        let skip_api_commits: bool = env_flag(env, "GHA2DB_GHAPISKIPCOMMITS");
        let skip_api_licenses: bool = env_flag(env, "GHA2DB_GHAPISKIPLICENSES");
        let force_api_licenses: bool = env_flag(env, "GHA2DB_GHAPIFORCELICENSES");
        let skip_api_langs: bool = env_flag(env, "GHA2DB_GHAPISKIPLANGS");
        let force_api_langs: bool = env_flag(env, "GHA2DB_GHAPIFORCELANGS");
        let skip_set_repos: bool = env_flag(env, "GHA2DB_GETREPOSSKIP");
        let csv_file: String = env_text(env, "GHA2DB_CSVOUT", "");
        let compute_all: bool = env_flag(env, "GHA2DB_COMPUTE_ALL");
        let actors_filter: bool = env_flag(env, "GHA2DB_ACTORS_FILTER");
        let skip_metrics: NameSet = env_names(env, "GHA2DB_SKIP_METRICS");
        let only_metrics: NameSet = env_names(env, "GHA2DB_ONLY_METRICS");
        let allow_broken_json: bool = env_flag(env, "GHA2DB_ALLOW_BROKEN_JSON");
        let jsons_dir: String = ensure_slash(env_text(env, "GHA2DB_JSONS_DIR", "./jsons/"));
        let website_data: bool = env_flag(env, "GHA2DB_WEBSITEDATA");
        let skip_update_events: bool = env_flag(env, "GHA2DB_SKIP_UPDATE_EVENTS");
        let compute_periods: Dict<BoolSet> = env_periods(env, "GHA2DB_FORCE_PERIODS");
        let auto_fetch_commits: bool = env_is_empty(env, "GHA2DB_NO_AUTOFETCHCOMMITS");
        let skip_tags: bool = env_flag(env, "GHA2DB_SKIP_TAGS");
        let skip_annotations: bool = env_flag(env, "GHA2DB_SKIP_ANNOTATIONS");
        let skip_columns: bool = env_flag(env, "GHA2DB_SKIP_COLUMNS");
        let run_columns: bool = env_flag(env, "GHA2DB_RUN_COLUMNS");
        let skip_vars: bool = env_flag(env, "GHA2DB_SKIP_VARS");
        let skip_rand: bool = env_flag(env, "GHA2DB_SKIP_RAND");
        let exclude_vars: NameSet = env_names(env, "GHA2DB_EXCLUDE_VARS");
        let only_vars: NameSet = env_names(env, "GHA2DB_ONLY_VARS");
        let skip_shared_db: bool = env_flag(env, "GHA2DB_SKIP_SHAREDDB");
        let skip_pid_file: bool = env_flag(env, "GHA2DB_SKIP_PIDFILE");
        let skip_company_acq: bool = env_flag(env, "GHA2DB_SKIP_COMPANY_ACQ");
        let check_provision_flag: bool = env_flag(env, "GHA2DB_CHECK_PROVISION_FLAG");
        let check_running_flag: bool = env_flag(env, "GHA2DB_CHECK_RUNNING_FLAG");
        let set_running_flag: bool = env_flag(env, "GHA2DB_SET_RUNNING_FLAG");
        let check_imported_sha: bool = env_flag(env, "GHA2DB_CHECK_IMPORTED_SHA");
        let only_check_imported_sha: bool = env_flag(env, "GHA2DB_ONLY_CHECK_IMPORTED_SHA");
        let enable_metrics_drop: bool = env_flag(env, "GHA2DB_ENABLE_METRICS_DROP");
        let pid_file_root: String = env_text(env, "GHA2DB_PID_FILE_ROOT", "devstats");
        let shared_db: String = "".to_owned();
        let project_main_repo: String = "".to_owned();
        let test_mode: bool = false;
        let can_reconnect: bool = true;
        let commits_files_stats_enabled: bool = env_is_empty(env, "GHA2DB_SKIP_COMMITS_FILES");
        let commits_loc_stats_enabled: bool = env_is_empty(env, "GHA2DB_SKIP_COMMITS_LOC");
        let rand_compute_at_this_date: bool = true;
        let refresh_commit_roles: bool = env_flag(env, "GHA2DB_REFRESH_COMMIT_ROLES");
        let allow_rand_tags_cols_compute: bool = false;
        Ok(
            Ctx {
                data_dir,
                debug,
                cmd_debug,
                github_debug,
                dry_run,
                json_out,
                db_out,
                st,
                ncpus,
                pg_host,
                pg_port,
                pg_db,
                pg_user,
                pg_pass,
                pg_ssl,
                index,
                table,
                tools,
                mgetc,
                q_out,
                ctx_out,
                log_time,
                default_start_date,
                force_start_date,
                last_series,
                skip_tsdb,
                skip_pdb,
                reset_tsdb,
                reset_ranges,
                explain,
                old_format,
                exact,
                log_to_db,
                local,
                absolute,
                local_cmd,
                metrics_yaml,
                tags_yaml,
                columns_yaml,
                vars_yaml,
                vars_fn_yaml,
                skip_dates_yaml,
                github_oauth,
                clear_db_period,
                clear_affs_lock_period,
                clear_giant_lock_period,
                trials,
                webhook_root,
                webhook_port,
                webhook_host,
                check_payload,
                full_deploy,
                deploy_branches,
                deploy_statuses,
                deploy_results,
                deploy_types,
                project_root,
                exec_fatal,
                exec_quiet,
                exec_output,
                project,
                tests_yaml,
                repos_dir,
                process_repos,
                process_commits,
                external_info,
                projects_commits,
                propagate_only_var,
                projects_yaml,
                company_acq_yaml,
                projects_override,
                affiliations_json,
                exclude_repos,
                input_dbs,
                output_db,
                mm_offset,
                default_hostname,
                recent_range,
                recent_repos_range,
                min_ghapi_points,
                max_ghapi_wait_seconds,
                max_ghapi_retry,
                ghapi_error_is_fatal,
                skip_ghapi,
                skip_api_events,
                skip_api_commits,
                skip_api_licenses,
                force_api_licenses,
                skip_api_langs,
                force_api_langs,
                skip_set_repos,
                csv_file,
                compute_all,
                actors_filter,
                actors_allow,
                actors_forbid,
                skip_metrics,
                only_metrics,
                allow_broken_json,
                jsons_dir,
                website_data,
                skip_update_events,
                compute_periods,
                auto_fetch_commits,
                skip_tags,
                skip_annotations,
                skip_columns,
                run_columns,
                skip_vars,
                skip_rand,
                exclude_vars,
                only_vars,
                skip_shared_db,
                skip_pid_file,
                skip_company_acq,
                check_provision_flag,
                check_running_flag,
                set_running_flag,
                max_running_flag_age,
                check_imported_sha,
                only_check_imported_sha,
                enable_metrics_drop,
                http_timeout,
                http_retry,
                pid_file_root,
                shared_db,
                project_main_repo,
                test_mode,
                can_reconnect,
                commits_files_stats_enabled,
                commits_loc_stats_enabled,
                recalc_reciprocal,
                max_histograms,
                max_run_duration,
                rand_compute_at_this_date,
                refresh_commit_roles,
                allow_rand_tags_cols_compute,
            },
        )
    }

    /// Decides the number of CPUs and whether the run is single-threaded.
    /// `GHA2DB_ST` turns single-threading on; a `GHA2DB_NCPUS` above 0 sets
    /// the number of CPUs, and turns single-threading on where it is 1. A
    /// `GHA2DB_NCPUS` below 1 is passed over. One that is no integer, or is
    /// above what the count can hold, stops the resolution and leaves the
    /// snapshot as it was.
    pub fn set_cpus(&mut self, env: &Env) -> (r: Result<(), ConfigError>)
        ensures
            r is Ok <==> cpus_failure(env@) is None,
            r is Ok ==> *final(self) == (Ctx {
                st: single_threaded_in(env@),
                ncpus: cpus_in(env@, old(self).ncpus as int) as u16,
                ..*old(self)
            }),
            r matches Err(e) ==> Some(e@) == cpus_failure(env@) && *final(self) == *old(self),
    {
        let count = match cpus_given(env) {
            Ok(v) => v,
            Err(e) => {
                return Err(e);
            },
        };
        let st = env_flag(env, "GHA2DB_ST") || count == 1;
        let ncpus = if count > 0 {
            count as u16
        } else {
            self.ncpus
        };
        self.st = st;
        self.ncpus = ncpus;
        Ok(())
    }

    /// Resolves the configuration from the environment `env` and from the
    /// outcomes `probes` of the probes for the OAuth token file, one for each
    /// candidate that the search came to, in order. It returns the snapshot,
    /// or what stopped the resolution: the first failure among the settings,
    /// else a pattern that did not compile, else a `GHA2DB_NCPUS` that is no
    /// integer or is above what the count can hold.
    pub fn new(env: &Env, probes: &Vec<Probe>) -> (r: Result<Ctx, ConfigError>)
        ensures
            match r {
                Ok(c) => failure(env@, probes@) is None && c.resolved(env@, probes@),
                Err(e) => match default_failure(env@, probes@) {
                    Some(f) => e@ == f,
                    None => pattern_stops(env@, e@) || Some(e@) == cpus_failure(env@),
                },
            },
    {
        let mut ctx = match Ctx::default(env, probes) {
            Ok(c) => c,
            Err(e) => {
                return Err(e);
            },
        };
        match ctx.set_cpus(env) {
            Ok(_) => Ok(ctx),
            Err(e) => Err(e),
        }
    }
}

/// A variable that is empty, which is to say absent or blank, leaves its
/// field at the default.
pub proof fn lemma_empty_gives_default(c: Ctx, env: Vars, probes: Seq<Probe>)
    requires
        c.resolved(env, probes),
    ensures
        is_empty(env, "GHA2DB_DATADIR"@) ==> c.data_dir@ == "/etc/gha2db/"@,
        is_empty(env, "GHA2DB_DEBUG"@) ==> c.debug == 0,
        is_empty(env, "GHA2DB_CMDDEBUG"@) ==> c.cmd_debug == 0,
        is_empty(env, "GHA2DB_GITHUB_DEBUG"@) ==> c.github_debug == 0,
        is_empty(env, "GHA2DB_DRY_RUN"@) ==> !c.dry_run,
        is_empty(env, "GHA2DB_JSON"@) ==> !c.json_out,
        is_empty(env, "GHA2DB_NODB"@) ==> c.db_out,
        is_empty(env, "PG_HOST"@) ==> c.pg_host@ == "localhost"@,
        is_empty(env, "PG_PORT"@) ==> c.pg_port@ == "5432"@,
        is_empty(env, "PG_DB"@) ==> c.pg_db@ == "gha"@,
        is_empty(env, "PG_USER"@) ==> c.pg_user@ == "gha_admin"@,
        is_empty(env, "PG_PASS"@) ==> c.pg_pass@ == "password"@,
        is_empty(env, "PG_SSL"@) ==> c.pg_ssl@ == "disable"@,
        is_empty(env, "GHA2DB_INDEX"@) ==> !c.index,
        is_empty(env, "GHA2DB_SKIPTABLE"@) ==> c.table,
        is_empty(env, "GHA2DB_SKIPTOOLS"@) ==> c.tools,
        is_empty(env, "GHA2DB_MGETC"@) ==> c.mgetc@ == ""@,
        is_empty(env, "GHA2DB_QOUT"@) ==> !c.q_out,
        is_empty(env, "GHA2DB_CTXOUT"@) ==> !c.ctx_out,
        is_empty(env, "GHA2DB_SKIPTIME"@) ==> c.log_time,
        is_empty(env, "GHA2DB_STARTDT"@) ==> c.default_start_date == default_start_date(),
        is_empty(env, "GHA2DB_STARTDT_FORCE"@) ==> !c.force_start_date,
        is_empty(env, "GHA2DB_LASTSERIES"@) ==> c.last_series@ == "events_h"@,
        is_empty(env, "GHA2DB_SKIPTSDB"@) ==> !c.skip_tsdb,
        is_empty(env, "GHA2DB_SKIPPDB"@) ==> !c.skip_pdb,
        is_empty(env, "GHA2DB_RESETTSDB"@) ==> !c.reset_tsdb,
        is_empty(env, "GHA2DB_RESETRANGES"@) ==> !c.reset_ranges,
        is_empty(env, "GHA2DB_EXPLAIN"@) ==> !c.explain,
        is_empty(env, "GHA2DB_OLDFMT"@) ==> !c.old_format,
        is_empty(env, "GHA2DB_EXACT"@) ==> !c.exact,
        is_empty(env, "GHA2DB_SKIPLOG"@) ==> c.log_to_db,
        is_empty(env, "GHA2DB_LOCAL"@) ==> !c.local,
        is_empty(env, "GHA2DB_ABSOLUTE"@) ==> !c.absolute,
        is_empty(env, "GHA2DB_LOCAL_CMD"@) ==> !c.local_cmd,
        is_empty(env, "GHA2DB_METRICS_YAML"@) ==> c.metrics_yaml@ == project_path(
            env, "metrics.yaml"@,
        ),
        is_empty(env, "GHA2DB_TAGS_YAML"@) ==> c.tags_yaml@ == project_path(env, "tags.yaml"@),
        is_empty(env, "GHA2DB_COLUMNS_YAML"@) ==> c.columns_yaml@ == project_path(
            env, "columns.yaml"@,
        ),
        is_empty(env, "GHA2DB_VARS_YAML"@) ==> c.vars_yaml@ == project_path(env, c.vars_fn_yaml@),
        is_empty(env, "GHA2DB_VARS_FN_YAML"@) ==> c.vars_fn_yaml@ == "vars.yaml"@,
        is_empty(env, "GHA2DB_SKIP_DATES_YAML"@) ==> c.skip_dates_yaml@ == "skip_dates.yaml"@,
        is_empty(env, "GHA2DB_GITHUB_OAUTH"@)
            ==> oauth_walk(oauth_candidates(), probes) == OauthState::Resolved(c.github_oauth@),
        is_empty(env, "GHA2DB_MAXLOGAGE"@) ==> c.clear_db_period@ == "1 week"@,
        is_empty(env, "GHA2DB_MAX_AFFS_LOCK_AGE"@) ==> c.clear_affs_lock_period@ == "16 hours"@,
        is_empty(env, "GHA2DB_MAX_GIANT_LOCK_AGE"@) ==> c.clear_giant_lock_period@ == "40 hours"@,
        is_empty(env, "GHA2DB_TRIALS"@) ==> values(c.trials@) == seq![
            10int, 30, 60, 120, 300, 600, 1200, 3600,
        ],
        is_empty(env, "GHA2DB_WHROOT"@) ==> c.webhook_root@ == "/hook"@,
        is_empty(env, "GHA2DB_WHPORT"@) ==> c.webhook_port@ == ":1982"@,
        is_empty(env, "GHA2DB_WHHOST"@) ==> c.webhook_host@ == "127.0.0.1"@,
        is_empty(env, "GHA2DB_SKIP_VERIFY_PAYLOAD"@) ==> c.check_payload,
        is_empty(env, "GHA2DB_SKIP_FULL_DEPLOY"@) ==> c.full_deploy,
        is_empty(env, "GHA2DB_DEPLOY_BRANCHES"@) ==> c.deploy_branches.deep_view() == seq![
            "master"@,
        ],
        is_empty(env, "GHA2DB_DEPLOY_STATUSES"@) ==> c.deploy_statuses.deep_view() == seq![
            "Passed"@, "Fixed"@,
        ],
        is_empty(env, "GHA2DB_DEPLOY_RESULTS"@) ==> values(c.deploy_results@) == seq![0int],
        is_empty(env, "GHA2DB_DEPLOY_TYPES"@) ==> c.deploy_types.deep_view() == seq!["push"@],
        is_empty(env, "GHA2DB_PROJECT_ROOT"@) ==> c.project_root@ == ""@,
        is_empty(env, "GHA2DB_PROJECT"@) ==> c.project@ == ""@,
        is_empty(env, "GHA2DB_TESTS_YAML"@) ==> c.tests_yaml@ == "tests.yaml"@,
        is_empty(env, "GHA2DB_REPOS_DIR"@)
            ==> c.repos_dir@ == value_or(env, "HOME"@, ""@) + "/devstats_repos/"@,
        is_empty(env, "GHA2DB_PROCESS_REPOS"@) ==> !c.process_repos,
        is_empty(env, "GHA2DB_PROCESS_COMMITS"@) ==> !c.process_commits,
        is_empty(env, "GHA2DB_EXTERNAL_INFO"@) ==> !c.external_info,
        is_empty(env, "GHA2DB_PROJECTS_COMMITS"@) && is_empty(env, "GHA2DB_PROPAGATE_ONLY_VAR"@)
            ==> c.projects_commits@ == ""@,
        is_empty(env, "GHA2DB_PROPAGATE_ONLY_VAR"@) ==> !c.propagate_only_var,
        is_empty(env, "GHA2DB_PROJECTS_YAML"@) ==> c.projects_yaml@ == "projects.yaml"@,
        is_empty(env, "GHA2DB_COMPANY_ACQ_YAML"@) ==> c.company_acq_yaml@ == "companies.yaml"@,
        is_empty(env, "GHA2DB_PROJECTS_OVERRIDE"@)
            ==> c.projects_override@ == Map::<Seq<char>, bool>::empty(),
        is_empty(env, "GHA2DB_AFFILIATIONS_JSON"@) ==> c.affiliations_json@ == "github_users.json"@,
        is_empty(env, "GHA2DB_EXCLUDE_REPOS"@) ==> c.exclude_repos@ == Set::<Seq<char>>::empty(),
        is_empty(env, "GHA2DB_INPUT_DBS"@) ==> c.input_dbs.deep_view() == Seq::<Seq<char>>::empty(),
        is_empty(env, "GHA2DB_OUTPUT_DB"@) ==> c.output_db@ == ""@,
        is_empty(env, "GHA2DB_TMOFFSET"@) ==> c.mm_offset == 0,
        is_empty(env, "GHA2DB_RECENT_RANGE"@) ==> c.recent_range@ == "2 hours"@,
        is_empty(env, "GHA2DB_RECENT_REPOS_RANGE"@) ==> c.recent_repos_range@ == "1 day"@,
        is_empty(env, "GHA2DB_MIN_GHAPI_POINTS"@) ==> c.min_ghapi_points == 1,
        is_empty(env, "GHA2DB_MAX_GHAPI_WAIT"@) ==> c.max_ghapi_wait_seconds == 10,
        is_empty(env, "GHA2DB_MAX_GHAPI_RETRY"@) ==> c.max_ghapi_retry == 6,
        is_empty(env, "GHA2DB_GHAPI_ERROR_FATAL"@) ==> !c.ghapi_error_is_fatal,
        is_empty(env, "GHA2DB_GHAPISKIP"@) ==> !c.skip_ghapi,
        is_empty(env, "GHA2DB_GHAPISKIPEVENTS"@) ==> !c.skip_api_events,
        is_empty(env, "GHA2DB_GHAPISKIPCOMMITS"@) ==> !c.skip_api_commits,
        is_empty(env, "GHA2DB_GHAPISKIPLICENSES"@) ==> !c.skip_api_licenses,
        is_empty(env, "GHA2DB_GHAPIFORCELICENSES"@) ==> !c.force_api_licenses,
        is_empty(env, "GHA2DB_GHAPISKIPLANGS"@) ==> !c.skip_api_langs,
        is_empty(env, "GHA2DB_GHAPIFORCELANGS"@) ==> !c.force_api_langs,
        is_empty(env, "GHA2DB_GETREPOSSKIP"@) ==> !c.skip_set_repos,
        is_empty(env, "GHA2DB_CSVOUT"@) ==> c.csv_file@ == ""@,
        is_empty(env, "GHA2DB_COMPUTE_ALL"@) ==> !c.compute_all,
        is_empty(env, "GHA2DB_ACTORS_FILTER"@) ==> !c.actors_filter,
        is_empty(env, "GHA2DB_ACTORS_ALLOW"@) ==> c.actors_allow is None,
        is_empty(env, "GHA2DB_ACTORS_FORBID"@) ==> c.actors_forbid is None,
        is_empty(env, "GHA2DB_SKIP_METRICS"@) ==> c.skip_metrics@ == Set::<Seq<char>>::empty(),
        is_empty(env, "GHA2DB_ONLY_METRICS"@) ==> c.only_metrics@ == Set::<Seq<char>>::empty(),
        is_empty(env, "GHA2DB_ALLOW_BROKEN_JSON"@) ==> !c.allow_broken_json,
        is_empty(env, "GHA2DB_JSONS_DIR"@) ==> c.jsons_dir@ == "./jsons/"@,
        is_empty(env, "GHA2DB_WEBSITEDATA"@) ==> !c.website_data,
        is_empty(env, "GHA2DB_SKIP_UPDATE_EVENTS"@) ==> !c.skip_update_events,
        is_empty(env, "GHA2DB_FORCE_PERIODS"@)
            ==> c.compute_periods@ == Map::<Seq<char>, BoolSet>::empty(),
        is_empty(env, "GHA2DB_NO_AUTOFETCHCOMMITS"@) ==> c.auto_fetch_commits,
        is_empty(env, "GHA2DB_SKIP_TAGS"@) ==> !c.skip_tags,
        is_empty(env, "GHA2DB_SKIP_ANNOTATIONS"@) ==> !c.skip_annotations,
        is_empty(env, "GHA2DB_SKIP_COLUMNS"@) ==> !c.skip_columns,
        is_empty(env, "GHA2DB_RUN_COLUMNS"@) ==> !c.run_columns,
        is_empty(env, "GHA2DB_SKIP_VARS"@) ==> !c.skip_vars,
        is_empty(env, "GHA2DB_SKIP_RAND"@) ==> !c.skip_rand,
        is_empty(env, "GHA2DB_EXCLUDE_VARS"@) ==> c.exclude_vars@ == Set::<Seq<char>>::empty(),
        is_empty(env, "GHA2DB_ONLY_VARS"@) ==> c.only_vars@ == Set::<Seq<char>>::empty(),
        is_empty(env, "GHA2DB_SKIP_SHAREDDB"@) ==> !c.skip_shared_db,
        is_empty(env, "GHA2DB_SKIP_PIDFILE"@) ==> !c.skip_pid_file,
        is_empty(env, "GHA2DB_SKIP_COMPANY_ACQ"@) ==> !c.skip_company_acq,
        is_empty(env, "GHA2DB_CHECK_PROVISION_FLAG"@) ==> !c.check_provision_flag,
        is_empty(env, "GHA2DB_CHECK_RUNNING_FLAG"@) ==> !c.check_running_flag,
        is_empty(env, "GHA2DB_SET_RUNNING_FLAG"@) ==> !c.set_running_flag,
        is_empty(env, "GHA2DB_MAX_RUNNING_FLAG_AGE"@)
            ==> c.max_running_flag_age.nanos == 32_400_000_000_000,
        is_empty(env, "GHA2DB_CHECK_IMPORTED_SHA"@) ==> !c.check_imported_sha,
        is_empty(env, "GHA2DB_ONLY_CHECK_IMPORTED_SHA"@) ==> !c.only_check_imported_sha,
        is_empty(env, "GHA2DB_ENABLE_METRICS_DROP"@) ==> !c.enable_metrics_drop,
        is_empty(env, "GHA2DB_HTTP_TIMEOUT"@) ==> c.http_timeout == 3,
        is_empty(env, "GHA2DB_HTTP_RETRY"@) ==> c.http_retry == 5,
        is_empty(env, "GHA2DB_PID_FILE_ROOT"@) ==> c.pid_file_root@ == "devstats"@,
        is_empty(env, "GHA2DB_SKIP_COMMITS_FILES"@) ==> c.commits_files_stats_enabled,
        is_empty(env, "GHA2DB_SKIP_COMMITS_LOC"@) ==> c.commits_loc_stats_enabled,
        is_empty(env, "GHA2DB_RECALC_RECIPROCAL"@) ==> c.recalc_reciprocal == 24,
        is_empty(env, "GHA2DB_MAX_HIST"@) ==> c.max_histograms == 0,
        is_empty(env, "GHA2DB_MAX_RUN_DURATION"@)
            ==> c.max_run_duration@ == Map::<Seq<char>, RunLimit>::empty(),
        is_empty(env, "GHA2DB_REFRESH_COMMIT_ROLES"@) ==> !c.refresh_commit_roles,
        is_empty(env, "GHA2DB_NCPUS"@) ==> c.ncpus == 0,
        is_empty(env, "GHA2DB_ST"@) && is_empty(env, "GHA2DB_NCPUS"@) ==> !c.st,
{
    reveal_strlit("/etc/gha2db/");
    reveal_strlit("");
    reveal_strlit(":1982");
    reveal_strlit("/devstats_repos/");
    reveal_strlit("./jsons/");
}

/// A path of the OAuth token that is set is taken as it is, whatever the
/// probes found.
pub proof fn lemma_oauth_setting_wins(c: Ctx, env: Vars, probes: Seq<Probe>)
    requires
        c.resolved(env, probes),
        !is_empty(env, "GHA2DB_GITHUB_OAUTH"@),
    ensures
        c.github_oauth@ == value_or(env, "GHA2DB_GITHUB_OAUTH"@, ""@),
{
    lemma_trimmed_empty_iff_blank(lookup(env, "GHA2DB_GITHUB_OAUTH"@)->Some_0);
}

/// The three directories of a snapshot end with `/`, however they were given.
pub proof fn lemma_directories_end_with_slash(c: Ctx, env: Vars, probes: Seq<Probe>)
    requires
        c.resolved(env, probes),
    ensures
        c.data_dir@.len() > 0 && c.data_dir@.last() == '/',
        c.repos_dir@.len() > 0 && c.repos_dir@.last() == '/',
        c.jsons_dir@.len() > 0 && c.jsons_dir@.last() == '/',
{
}

/// A `GHA2DB_NCPUS` of 1 makes the run single-threaded, whatever `GHA2DB_ST`
/// holds.
pub proof fn lemma_one_cpu_is_single_threaded(c: Ctx, env: Vars, probes: Seq<Probe>)
    requires
        c.resolved(env, probes),
        present(env, "GHA2DB_NCPUS"@) matches Some(v) && decimal_value(v) == 1,
    ensures
        c.st,
        c.ncpus == 1,
{
}

/// A `GHA2DB_NCPUS` that is an integer below 1 stops nothing: the count and
/// the single-threaded mode are what they are without the variable.
pub proof fn lemma_cpus_below_one_are_passed_over(c: Ctx, env: Vars, probes: Seq<Probe>)
    requires
        c.resolved(env, probes),
        present(env, "GHA2DB_NCPUS"@) matches Some(v) && converts::<i64>(v) && decimal_value(v) < 1,
    ensures
        cpus_failure(env) is None,
        c.ncpus == 0,
        c.st == flag(env, "GHA2DB_ST"@),
{
}

/// A value that is present and is none of what its setting takes stops the
/// resolution: no snapshot is made of an environment with such a value.
pub proof fn lemma_malformed_value_stops(env: Vars, probes: Seq<Probe>)
    ensures
        number_failure::<i8>(env, "GHA2DB_DEBUG"@) is Some ==> failure(env, probes) is Some,
        number_failure::<i8>(env, "GHA2DB_CMDDEBUG"@) is Some ==> failure(env, probes) is Some,
        number_failure::<i8>(env, "GHA2DB_GITHUB_DEBUG"@) is Some ==> failure(env, probes) is Some,
        date_failure(env, "GHA2DB_STARTDT"@) is Some ==> failure(env, probes) is Some,
        oauth_failure(env, probes) is Some ==> failure(env, probes) is Some,
        numbers_failure::<i16>(env, "GHA2DB_TRIALS"@) is Some ==> failure(env, probes) is Some,
        numbers_failure::<i16>(env, "GHA2DB_DEPLOY_RESULTS"@) is Some
            ==> failure(env, probes) is Some,
        number_failure::<i8>(env, "GHA2DB_TMOFFSET"@) is Some ==> failure(env, probes) is Some,
        number_failure::<i16>(env, "GHA2DB_MIN_GHAPI_POINTS"@) is Some
            ==> failure(env, probes) is Some,
        number_failure::<i16>(env, "GHA2DB_MAX_GHAPI_WAIT"@) is Some
            ==> failure(env, probes) is Some,
        number_failure::<i16>(env, "GHA2DB_MAX_GHAPI_RETRY"@) is Some
            ==> failure(env, probes) is Some,
        duration_failure(env, "GHA2DB_MAX_RUNNING_FLAG_AGE"@) is Some
            ==> failure(env, probes) is Some,
        number_failure::<i16>(env, "GHA2DB_HTTP_TIMEOUT"@) is Some ==> failure(env, probes) is Some,
        number_failure::<i8>(env, "GHA2DB_HTTP_RETRY"@) is Some ==> failure(env, probes) is Some,
        number_failure::<i8>(env, "GHA2DB_RECALC_RECIPROCAL"@) is Some
            ==> failure(env, probes) is Some,
        number_failure::<i8>(env, "GHA2DB_MAX_HIST"@) is Some ==> failure(env, probes) is Some,
        run_limits_failure(env, "GHA2DB_MAX_RUN_DURATION"@) is Some
            ==> failure(env, probes) is Some,
        cpus_failure(env) is Some ==> failure(env, probes) is Some,
{
}

/// A number that a variable holds is stored as it is, where its setting takes
/// every number; where the setting is guarded, a number below the guard leaves
/// the default.
pub proof fn lemma_number_is_stored(c: Ctx, env: Vars, probes: Seq<Probe>, v: Seq<char>)
    requires
        c.resolved(env, probes),
    ensures
        present(env, "GHA2DB_DEBUG"@) == Some(v) ==> c.debug == decimal_value(v),
        present(env, "GHA2DB_CMDDEBUG"@) == Some(v) ==> c.cmd_debug == decimal_value(v),
        present(env, "GHA2DB_GITHUB_DEBUG"@) == Some(v) ==> c.github_debug == decimal_value(v),
        present(env, "GHA2DB_TMOFFSET"@) == Some(v) ==> c.mm_offset == decimal_value(v),
        present(env, "GHA2DB_MIN_GHAPI_POINTS"@) == Some(v)
            ==> c.min_ghapi_points == if decimal_value(v) >= 0 {
            decimal_value(v)
        } else {
            1
        },
        present(env, "GHA2DB_MAX_GHAPI_WAIT"@) == Some(v)
            ==> c.max_ghapi_wait_seconds == if decimal_value(v) >= 0 {
            decimal_value(v)
        } else {
            10
        },
        present(env, "GHA2DB_MAX_GHAPI_RETRY"@) == Some(v)
            ==> c.max_ghapi_retry == if decimal_value(v) >= 1 {
            decimal_value(v)
        } else {
            6
        },
        present(env, "GHA2DB_HTTP_TIMEOUT"@) == Some(v) ==> c.http_timeout == decimal_value(v),
        present(env, "GHA2DB_HTTP_RETRY"@) == Some(v) ==> c.http_retry == decimal_value(v),
        present(env, "GHA2DB_RECALC_RECIPROCAL"@) == Some(v)
            ==> c.recalc_reciprocal == if decimal_value(v) >= 1 {
            decimal_value(v)
        } else {
            24
        },
        present(env, "GHA2DB_MAX_HIST"@) == Some(v)
            ==> c.max_histograms == if decimal_value(v) >= 1 {
            decimal_value(v)
        } else {
            0
        },
{
}

} // verus!
