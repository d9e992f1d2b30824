//! Installation of the global logger.

use log::{LevelFilter, SetLoggerError};
use vstd::prelude::*;

verus! {

#[verifier::external_type_specification]
#[verifier::external_body]
pub struct ExLevelFilter(LevelFilter);

#[verifier::external_type_specification]
#[verifier::external_body]
pub struct ExSetLoggerError(SetLoggerError);

/// Relies on `log::set_max_level`: stores the global maximum level that log
/// records are filtered against.
#[verifier::external_body]
fn apply_max_level(level: LevelFilter) {
    log::set_max_level(level)
}

/// Completes the installation of a logger: once registering it as the
/// global logger has succeeded, records `max_level` as the global maximum
/// level. A failed registration is passed back and the level is left alone.
pub fn init(registration: Result<(), SetLoggerError>, max_level: LevelFilter) -> (r: Result<(), SetLoggerError>)
    ensures
        r == registration,
{
    if registration.is_ok() {
        apply_max_level(max_level);
    }
    registration
}

} // verus!
