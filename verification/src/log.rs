//! The last stop of a result on its way out of configuration resolution.

use vstd::prelude::*;

verus! {

/// Lets a result pass that is known to hold no error. The caller has to have
/// ruled the error out: what stops a resolution is returned to its caller as a
/// `ConfigError`, and never comes here.
pub fn fatal_no_log<T, E: core::fmt::Debug>(res: &Result<T, E>)
    requires
        res is Ok,
{
}

/// `fatal_no_log` for a result whose error is a message.
pub fn fatal_no_log_str(res: Result<(), String>)
    requires
        res is Ok,
{
    fatal_no_log(&res)
}

} // verus!
