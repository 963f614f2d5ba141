//! A snapshot of the process environment and the lookups made on it.

use crate::number::{converts, decimal_value, string_to_num_must, Number};
use crate::text::{blank, is_blank, trim, trimmed};
use vstd::prelude::*;

verus! {

/// An environment over plain sequences of characters.
pub type Vars = Seq<(Seq<char>, Seq<char>)>;

/// The variables of a process environment, as name and value pairs. Where a name
/// stands twice, the first pair counts.
pub struct Env {
    pub vars: Vec<(String, String)>,
}

impl View for Env {
    type V = Seq<(Seq<char>, Seq<char>)>;

    open spec fn view(&self) -> Vars {
        self.vars.deep_view()
    }
}

/// The value of the first pair named `name`, if there is one.
pub open spec fn lookup(env: Vars, name: Seq<char>) -> Option<Seq<char>>
    decreases env.len(),
{
    if env.len() == 0 {
        None
    } else if env[0].0 == name {
        Some(env[0].1)
    } else {
        lookup(env.drop_first(), name)
    }
}

/// A variable is empty when it is absent or its value is blank. An empty
/// variable takes its default.
pub open spec fn is_empty(env: Vars, name: Seq<char>) -> bool {
    match lookup(env, name) {
        Some(v) => is_blank(v),
        None => true,
    }
}

/// The trimmed value of a variable that is not empty, else `default`.
pub open spec fn value_or(env: Vars, name: Seq<char>, default: Seq<char>) -> Seq<char> {
    match lookup(env, name) {
        Some(v) => if is_blank(v) {
            default
        } else {
            trimmed(v)
        },
        None => default,
    }
}

/// A variable absent from `env` is absent from every extension of `env` at the
/// front by pairs of other names, and a lookup skips such pairs.
pub proof fn lemma_lookup_skip(env: Vars, name: Seq<char>, k: int)
    requires
        0 <= k <= env.len(),
        forall|i: int| 0 <= i < k ==> (#[trigger] env[i]).0 != name,
    ensures
        lookup(env, name) == lookup(env.skip(k), name),
    decreases k,
{
    if k == 0 {
        assert(env.skip(0) =~= env);
    } else {
        let rest = env.drop_first();
        assert forall|i: int| 0 <= i < k - 1 implies (#[trigger] rest[i]).0 != name by {
            assert(rest[i] == env[i + 1]);
        }
        lemma_lookup_skip(rest, name, k - 1);
        assert(rest.skip(k - 1) =~= env.skip(k));
    }
}

impl Env {
    /// An environment without variables.
    pub fn new() -> (r: Env)
        ensures
            r@ == Seq::<(Seq<char>, Seq<char>)>::empty(),
    {
        let r = Env { vars: Vec::new() };
        assert(r@ =~= Seq::empty());
        r
    }

    /// The value of `name` as it stands in the environment.
    pub fn get(&self, name: &str) -> (r: Option<&str>)
        ensures
            r is Some <==> lookup(self@, name@) is Some,
            r matches Some(v) ==> lookup(self@, name@) == Some(v@),
    {
        let key: String = name.to_owned();
        let n: usize = self.vars.len();
        let mut i: usize = 0;
        while i < n
            invariant
                i <= n,
                n == self.vars.len(),
                key@ == name@,
                forall|j: int| 0 <= j < i ==> (#[trigger] self@[j]).0 != name@,
            decreases n - i,
        {
            if self.vars[i].0 == key {
                proof {
                    lemma_lookup_skip(self@, name@, i as int);
                    assert(self@.skip(i as int)[0] == self@[i as int]);
                }
                return Some(self.vars[i].1.as_str());
            }
            i += 1;
        }
        proof {
            lemma_lookup_skip(self@, name@, n as int);
        }
        None
    }
}

/// Whether the variable is present, whatever it holds.
pub fn env_is_set(env: &Env, var_name: &str) -> (r: bool)
    ensures
        r == lookup(env@, var_name@) is Some,
{
    env.get(var_name).is_some()
}

/// Whether the variable is absent or blank.
pub fn env_is_empty(env: &Env, var_name: &str) -> (r: bool)
    ensures
        r == is_empty(env@, var_name@),
{
    match env.get(var_name) {
        Some(v) => blank(v),
        None => true,
    }
}

/// The trimmed value of the variable, or `default_value` where it is empty.
pub fn env_or_default(env: &Env, var_name: &str, default_value: String) -> (r: String)
    ensures
        r@ == value_or(env@, var_name@, default_value@),
{
    match env.get(var_name) {
        Some(v) => {
            if blank(v) {
                default_value
            } else {
                trim(v).to_owned()
            }
        },
        None => default_value,
    }
}

/// The number that the variable holds, where it is known to hold one.
pub fn env_number<T: Number>(env: &Env, var_name: &str) -> (r: T)
    requires
        lookup(env@, var_name@) matches Some(v) && converts::<T>(v),
    ensures
        r.value() == decimal_value(lookup(env@, var_name@)->Some_0),
{
    let v = env.get(var_name).unwrap();
    string_to_num_must::<T>(v)
}

} // verus!
