//! How one setting is read from the environment: flags, texts, paths and
//! guarded numbers.

use crate::datetime::{date_time_of, parse_date_time, DateTime};
use crate::dict::{Dict, NameSet};
use crate::duration::{duration_nanos, parse_duration, Duration};
use crate::env::{env_is_empty, env_or_default, is_empty, lookup, value_or, Env, Vars};
use crate::error::{ConfigError, Failure, RunLimit};
use crate::list::{
    name_set, names_of, number_list, numbers_of, override_map, overrides_of, period_map,
    periods_of, run_limits, run_limits_of, values, BoolSet,
};
use crate::number::{converts, decimal_value, string_to_num, Malformed, Number};
use crate::pattern::{compile, pattern_failure, Matcher};
use crate::text::{blank, join, lemma_join_of_split, replaced, split, split_on, to_chars};
use vstd::prelude::*;

verus! {

/// A flag is on when its variable is not empty.
pub open spec fn flag(env: Vars, name: Seq<char>) -> bool {
    !is_empty(env, name)
}

/// The value of a variable as it stands, untrimmed, unless the variable is empty.
pub open spec fn present(env: Vars, name: Seq<char>) -> Option<Seq<char>> {
    if is_empty(env, name) {
        None
    } else {
        lookup(env, name)
    }
}

/// `s`, with a `/` at its end where it had none.
pub open spec fn with_slash(s: Seq<char>) -> Seq<char> {
    if s.len() > 0 && s.last() == '/' {
        s
    } else {
        s.push('/')
    }
}

/// `s`, with a `:` at its front where it had none.
pub open spec fn with_colon(s: Seq<char>) -> Seq<char> {
    if s.len() > 0 && s[0] == ':' {
        s
    } else {
        seq![':'] + s
    }
}

/// The first character of `s`, or `s` itself where it is shorter than two.
pub open spec fn first_char(s: Seq<char>) -> Seq<char> {
    if s.len() > 1 {
        s.take(1)
    } else {
        s
    }
}

/// What stops the reading of a number of `T` from the variable: a value that
/// is present and does not convert.
pub open spec fn number_failure<T: Number>(env: Vars, name: Seq<char>) -> Option<Failure> {
    match present(env, name) {
        Some(v) => if converts::<T>(v) {
            None
        } else {
            Some(Failure::MalformedValue { variable: name, value: v, target: T::target_name() })
        },
        None => None,
    }
}

/// The number of a guarded setting: the value of the variable where it is
/// present and at least `least`, else `default`.
pub open spec fn guarded(env: Vars, name: Seq<char>, least: int, default: int) -> int {
    match present(env, name) {
        Some(v) => if decimal_value(v) >= least {
            decimal_value(v)
        } else {
            default
        },
        None => default,
    }
}

/// The number of a setting that takes any number of its type: the value of the
/// variable where it is present, else `default`.
pub open spec fn number_or(env: Vars, name: Seq<char>, default: int) -> int {
    match present(env, name) {
        Some(v) => decimal_value(v),
        None => default,
    }
}

/// The list of a setting: the pieces of the variable where it is present, else
/// `default`.
pub open spec fn strings_or(env: Vars, name: Seq<char>, default: Seq<Seq<char>>) -> Seq<Seq<char>> {
    match present(env, name) {
        Some(v) => split_on(v, ','),
        None => default,
    }
}

/// What stops the reading of a list of numbers of `T` from the variable: the
/// first piece that does not convert.
pub open spec fn numbers_failure<T: Number>(env: Vars, name: Seq<char>) -> Option<Failure> {
    match present(env, name) {
        Some(v) => match numbers_of::<T>(split_on(v, ',')) {
            Err(bad) => Some(
                Failure::MalformedValue { variable: name, value: bad, target: T::target_name() },
            ),
            Ok(_) => None,
        },
        None => None,
    }
}

/// The list of numbers of a setting: those that the variable writes where it
/// is present, else `default`.
pub open spec fn numbers_or<T: Number>(env: Vars, name: Seq<char>, default: Seq<int>) -> Seq<int> {
    match present(env, name) {
        Some(v) => numbers_of::<T>(split_on(v, ','))->Ok_0,
        None => default,
    }
}

/// The set of names of a setting; empty where the variable is.
pub open spec fn names_in(env: Vars, name: Seq<char>) -> Set<Seq<char>> {
    match present(env, name) {
        Some(v) => names_of(split_on(v, ',')),
        None => Set::empty(),
    }
}

/// The override map of a setting; empty where the variable is.
pub open spec fn overrides_in(env: Vars, name: Seq<char>) -> Map<Seq<char>, bool> {
    match present(env, name) {
        Some(v) => overrides_of(split_on(v, ',')),
        None => Map::empty(),
    }
}

/// The period map of a setting; empty where the variable is.
pub open spec fn periods_in(env: Vars, name: Seq<char>) -> Map<Seq<char>, BoolSet> {
    match present(env, name) {
        Some(v) => periods_of(split_on(v, ',')),
        None => Map::empty(),
    }
}

/// The run-duration map of a setting, or what stops its reading; empty where
/// the variable is.
pub open spec fn run_limits_in(env: Vars, name: Seq<char>) -> Result<
    Map<Seq<char>, RunLimit>,
    Failure,
> {
    match present(env, name) {
        Some(v) => run_limits_of(name, split_on(v, ',')),
        None => Ok(Map::empty()),
    }
}

/// What stops the reading of a duration from the variable.
pub open spec fn duration_failure(env: Vars, name: Seq<char>) -> Option<Failure> {
    match present(env, name) {
        Some(v) => if duration_nanos(v) is Some {
            None
        } else {
            Some(Failure::MalformedValue { variable: name, value: v, target: "duration"@ })
        },
        None => None,
    }
}

/// The nanoseconds of a duration setting: those that the variable writes where
/// it is present, else `default`.
pub open spec fn duration_or(env: Vars, name: Seq<char>, default: int) -> int {
    match present(env, name) {
        Some(v) => duration_nanos(v)->Some_0,
        None => default,
    }
}

/// What stops the reading of a date from the variable.
pub open spec fn date_failure(env: Vars, name: Seq<char>) -> Option<Failure> {
    match present(env, name) {
        Some(v) => if date_time_of(v) is Some {
            None
        } else {
            Some(Failure::MalformedValue { variable: name, value: v, target: "date"@ })
        },
        None => None,
    }
}

/// The date of a setting: the one that the variable writes where it is
/// present, else `default`.
pub open spec fn date_or(env: Vars, name: Seq<char>, default: DateTime) -> DateTime {
    match present(env, name) {
        Some(v) => date_time_of(v)->Some_0,
        None => default,
    }
}

/// The failure of the pattern of the variable, should it not compile; none
/// where the variable is empty.
pub open spec fn pattern_failure_in(env: Vars, name: Seq<char>) -> Option<Failure> {
    match present(env, name) {
        Some(p) => Some(pattern_failure(name, p)),
        None => None,
    }
}

/// A path made to end with `/` does so; one that did already is left as it was.
pub proof fn lemma_with_slash(s: Seq<char>)
    ensures
        with_slash(s).len() > 0,
        with_slash(s).last() == '/',
        s.len() > 0 && s.last() == '/' ==> with_slash(s) == s,
        with_slash(with_slash(s)) == with_slash(s),
{
}

/// Reads a flag.
pub fn env_flag(env: &Env, name: &str) -> (r: bool)
    ensures
        r == flag(env@, name@),
{
    !env_is_empty(env, name)
}

/// The value of the variable as it stands, unless the variable is empty.
pub fn env_present<'a>(env: &'a Env, name: &str) -> (r: Option<&'a str>)
    ensures
        r is Some <==> present(env@, name@) is Some,
        r matches Some(v) ==> present(env@, name@) == Some(v@),
{
    match env.get(name) {
        Some(v) => if blank(v) {
            None
        } else {
            Some(v)
        },
        None => None,
    }
}

/// Reads a text with a default.
pub fn env_text(env: &Env, name: &str, default: &str) -> (r: String)
    ensures
        r@ == value_or(env@, name@, default@),
{
    env_or_default(env, name, default.to_owned())
}

/// The failure of the variable `name`, whose value is malformed as `e` says.
fn malformed(name: &str, e: Malformed) -> (r: ConfigError)
    ensures
        r@ == (Failure::MalformedValue { variable: name@, value: e.value@, target: e.target@ }),
{
    ConfigError::MalformedValue { variable: name.to_owned(), value: e.value, target: e.target }
}

/// Reads a guarded number.
pub fn guarded_number<T: Number>(env: &Env, name: &str, least: T, default: T) -> (r: Result<
    T,
    ConfigError,
>)
    ensures
        r is Ok <==> number_failure::<T>(env@, name@) is None,
        r matches Ok(v) ==> v.value() == guarded(env@, name@, least.value(), default.value()),
        r matches Err(e) ==> Some(e@) == number_failure::<T>(env@, name@),
{
    match env_present(env, name) {
        None => Ok(default),
        Some(v) => match string_to_num::<T>(v) {
            Ok(n) => if n.wide() >= least.wide() {
                Ok(n)
            } else {
                Ok(default)
            },
            Err(e) => Err(malformed(name, e)),
        },
    }
}

/// Reads a number that takes any value of its type.
pub fn env_number_or<T: Number>(env: &Env, name: &str, default: T) -> (r: Result<T, ConfigError>)
    ensures
        r is Ok <==> number_failure::<T>(env@, name@) is None,
        r matches Ok(v) ==> v.value() == number_or(env@, name@, default.value()),
        r matches Err(e) ==> Some(e@) == number_failure::<T>(env@, name@),
{
    match env_present(env, name) {
        None => Ok(default),
        Some(v) => match string_to_num::<T>(v) {
            Ok(n) => Ok(n),
            Err(e) => Err(malformed(name, e)),
        },
    }
}

/// Reads a list of texts.
pub fn env_strings(env: &Env, name: &str, default: Vec<String>) -> (r: Vec<String>)
    ensures
        r.deep_view() == strings_or(env@, name@, default.deep_view()),
{
    match env_present(env, name) {
        Some(v) => split(v, ','),
        None => default,
    }
}

/// Reads a list of numbers.
pub fn env_numbers<T: Number>(env: &Env, name: &str, default: Vec<T>) -> (r: Result<
    Vec<T>,
    ConfigError,
>)
    ensures
        r is Ok <==> numbers_failure::<T>(env@, name@) is None,
        r matches Ok(v) ==> values(v@) == numbers_or::<T>(env@, name@, values(default@)),
        r matches Err(e) ==> Some(e@) == numbers_failure::<T>(env@, name@),
{
    match env_present(env, name) {
        None => Ok(default),
        Some(v) => match number_list::<T>(v) {
            Ok(list) => Ok(list),
            Err(e) => Err(malformed(name, e)),
        },
    }
}

/// Reads a set of names.
pub fn env_names(env: &Env, name: &str) -> (r: NameSet)
    ensures
        r.wf(),
        r@ == names_in(env@, name@),
{
    match env_present(env, name) {
        Some(v) => name_set(v),
        None => NameSet::new(),
    }
}

/// Reads an override map.
pub fn env_overrides(env: &Env, name: &str) -> (r: Dict<bool>)
    ensures
        r.wf(),
        r@ == overrides_in(env@, name@),
{
    match env_present(env, name) {
        Some(v) => override_map(v),
        None => Dict::new(),
    }
}

/// Reads a period map.
pub fn env_periods(env: &Env, name: &str) -> (r: Dict<BoolSet>)
    ensures
        r.wf(),
        r@ == periods_in(env@, name@),
{
    match env_present(env, name) {
        Some(v) => period_map(v),
        None => Dict::new(),
    }
}

/// Reads a run-duration map.
pub fn env_run_limits(env: &Env, name: &str) -> (r: Result<Dict<RunLimit>, ConfigError>)
    ensures
        r is Ok <==> run_limits_in(env@, name@) is Ok,
        r matches Ok(d) ==> d.wf() && d@ == run_limits_in(env@, name@)->Ok_0,
        r matches Err(e) ==> e@ == run_limits_in(env@, name@)->Err_0,
{
    match env_present(env, name) {
        Some(v) => run_limits(name, v),
        None => Ok(Dict::new()),
    }
}

/// Reads a duration.
pub fn env_duration(env: &Env, name: &str, default: Duration) -> (r: Result<Duration, ConfigError>)
    ensures
        r is Ok <==> duration_failure(env@, name@) is None,
        r matches Ok(d) ==> d.nanos == duration_or(env@, name@, default.nanos as int),
        r matches Err(e) ==> Some(e@) == duration_failure(env@, name@),
{
    match env_present(env, name) {
        None => Ok(default),
        Some(v) => match parse_duration(v) {
            Ok(d) => Ok(d),
            Err(e) => Err(malformed(name, e)),
        },
    }
}

/// Reads a date.
pub fn env_date_time(env: &Env, name: &str, default: DateTime) -> (r: Result<DateTime, ConfigError>)
    ensures
        r is Ok <==> date_failure(env@, name@) is None,
        r matches Ok(d) ==> d == date_or(env@, name@, default),
        r matches Err(e) ==> Some(e@) == date_failure(env@, name@),
{
    match env_present(env, name) {
        None => Ok(default),
        Some(v) => match parse_date_time(v) {
            Ok(d) => Ok(d),
            Err(e) => Err(malformed(name, e)),
        },
    }
}

/// Compiles the pattern of the variable, where the variable is present.
/// Whether the pattern compiles is for the pattern compiler to say: a matcher
/// holds the value of the variable, and a failure names the variable and its
/// value.
pub fn env_pattern(env: &Env, name: &str) -> (r: Result<Option<Matcher>, ConfigError>)
    ensures
        r matches Ok(m) ==> (m is Some <==> present(env@, name@) is Some),
        r matches Ok(Some(m)) ==> Some(m.pattern@) == present(env@, name@),
        r matches Err(e) ==> Some(e@) == pattern_failure_in(env@, name@),
{
    match env_present(env, name) {
        None => Ok(None),
        Some(v) => match compile(name, v) {
            Ok(m) => Ok(Some(m)),
            Err(e) => Err(e),
        },
    }
}

/// Puts a `/` at the end of a path that has none.
pub fn ensure_slash(s: String) -> (r: String)
    ensures
        r@ == with_slash(s@),
{
    let v = to_chars(s.as_str());
    let n: usize = v.len();
    if n > 0 && v[n - 1] == '/' {
        s
    } else {
        proof {
            reveal_strlit("/");
        }
        let r = s.concat("/");
        assert(r@ =~= s@.push('/'));
        r
    }
}

/// Puts a `:` at the front of a port that has none.
pub fn ensure_colon(s: String) -> (r: String)
    ensures
        r@ == with_colon(s@),
{
    let v = to_chars(s.as_str());
    if v.len() > 0 && v[0] == ':' {
        s
    } else {
        proof {
            reveal_strlit(":");
        }
        let r = ":".to_owned().concat(s.as_str());
        assert(r@ =~= seq![':'] + s@);
        r
    }
}

/// Cuts a text down to its first character.
pub fn keep_first_char(s: String) -> (r: String)
    ensures
        r@ == first_char(s@),
{
    if s.as_str().unicode_len() > 1 {
        let r = s.as_str().substring_char(0, 1).to_owned();
        assert(r@ =~= s@.take(1));
        r
    } else {
        s
    }
}

/// Replaces each space by a comma.
pub fn spaces_to_commas(s: &str) -> (r: String)
    ensures
        r@ == replaced(s@, ' ', ','),
{
    proof {
        reveal_strlit(",");
        assert(","@ =~= seq![',']);
        lemma_join_of_split(s@, ' ', ',');
    }
    let pieces = split(s, ' ');
    join(&pieces, ",")
}

} // verus!
