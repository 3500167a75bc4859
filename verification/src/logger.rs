//! Installation of the global logger.

use vstd::prelude::*;

verus! {

#[verifier::external_type_specification]
#[verifier::external_body]
pub struct ExLevelFilter(log::LevelFilter);

#[verifier::external_type_specification]
#[verifier::external_body]
pub struct ExSetLoggerError(log::SetLoggerError);

/// Calls `log::set_max_level`, which stores the level in a global; nothing is
/// returned, and the stored level is not stated here.
#[verifier::external_body]
fn set_max_level(level: log::LevelFilter) {
    log::set_max_level(level)
}

/// Calls `log::set_logger`. Its result depends on whether a logger was already set
/// by this process (a global), so nothing is stated of it.
#[verifier::external_body]
fn set_logger<L: log::Log>(logger: &'static L) -> Result<(), log::SetLoggerError> {
    log::set_logger(logger)
}

/// Sets the maximum log level first, then installs `logger` as the global logger.
/// Fails when a logger was already installed.
pub fn setup_logger<L: log::Log>(
    logger: &'static L,
    level: log::LevelFilter,
) -> Result<(), log::SetLoggerError> {
    set_max_level(level);
    set_logger(logger)
}

} // verus!
