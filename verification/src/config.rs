//! Configuration decisions: development-mode detection from a process-start
//! argument, and choosing between an environment-supplied value and a default.
//! Reading the process arguments and the environment is the host's business;
//! the functions here decide from the values read.

use vstd::prelude::*;

verus! {

/// The process-start argument that switches the process into development mode.
pub const DEV_MODE_TOKEN: &'static str = "dev";

/// Whether the process runs in development mode: its first argument equals
/// the sentinel token `"dev"`.
pub fn dev_mode(first_arg: Option<&String>) -> (r: bool)
    ensures
        r == (match first_arg {
            Some(a) => a@ == DEV_MODE_TOKEN@,
            None => false,
        }),
{
    match first_arg {
        Some(a) => {
            let token: String = DEV_MODE_TOKEN.to_owned();
            *a == token
        },
        None => false,
    }
}

/// The configuration value as read from the environment, or the default where
/// the variable is unset.
pub fn env_value_or_default(value: Option<String>, default: &str) -> (r: String)
    ensures
        r@ == (match value {
            Some(v) => v@,
            None => default@,
        }),
{
    match value {
        Some(v) => v,
        None => default.to_owned(),
    }
}

} // verus!
