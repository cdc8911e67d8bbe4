//! The state-estimate log block: which variables it samples, how often, and
//! the calls into `crazyflie_lib` that this needs.

use vstd::prelude::*;
use vstd::string::StringExecFns;

use crazyflie_lib::subsystems::log::LogPeriod;

verus! {

#[verifier::external_type_specification]
#[verifier::external_body]
pub struct ExLogPeriod(LogPeriod);

/// How many variables the state-estimate log block samples.
pub const LOG_VARIABLE_COUNT: usize = 3;

/// How often, in milliseconds, the Crazyflie sends the state estimate.
pub const LOG_PERIOD_MS: u64 = 100;

/// How often, in milliseconds, a setpoint is sent while flying.
pub const SETPOINT_INTERVAL_MS: u64 = 20;

/// The name of the `index`-th variable of the state-estimate log block.
pub open spec fn log_variable(index: nat) -> Seq<char> {
    if index == 0 {
        "stateEstimate.roll"@
    } else if index == 1 {
        "stateEstimate.pitch"@
    } else {
        "stateEstimate.yaw"@
    }
}

/// The name of the `index`-th variable of the state-estimate log block.
pub fn log_variable_name(index: usize) -> (name: String)
    requires
        index < LOG_VARIABLE_COUNT,
    ensures
        name@ == log_variable(index as nat),
{
    if index == 0 {
        String::from_str("stateEstimate.roll")
    } else if index == 1 {
        String::from_str("stateEstimate.pitch")
    } else {
        String::from_str("stateEstimate.yaw")
    }
}

/// Whether `millis` is a log period that the Crazyflie accepts: the period is
/// sent as a count of ten-millisecond units that must fit in one byte and
/// must not be zero, so from 10 ms to 2559 ms.
pub open spec fn valid_log_period(millis: u64) -> bool {
    1 <= millis / 10 <= 255
}

/// The text of the error that `crazyflie_lib` gives for a rejected log period.
pub open spec fn rejected_period_text() -> Seq<char> {
    "Log error: Invalid log period, should be between 10ms and 2550ms"@
}

/// A log period that the Crazyflie accepts. Its view is its length in
/// ten-millisecond units, the byte that is sent to the Crazyflie.
pub struct Period {
    period: LogPeriod,
    units: Ghost<nat>,
}

impl View for Period {
    type V = nat;

    closed spec fn view(&self) -> nat {
        self.units@
    }
}

impl Period {
    /// The period, as `LogBlock::start` takes it.
    pub fn into_log_period(self) -> LogPeriod {
        self.period
    }
}

/// Calls `LogPeriod::from_millis` and renders its error with `Display`. Its
/// source holds `millis / 10` ten-millisecond units and accepts exactly the
/// counts from 1 to 255; otherwise it returns
/// `Error::LogError("Invalid log period, should be between 10ms and 2550ms")`,
/// which displays with the prefix "Log error: ".
#[verifier::external_body]
fn log_period_from_millis(millis: u64) -> (res: Result<Period, String>)
    ensures
        res is Ok <==> valid_log_period(millis),
        res matches Ok(p) ==> p@ == (millis / 10) as nat,
        res matches Err(t) ==> t@ == rejected_period_text(),
{
    match LogPeriod::from_millis(millis) {
        Ok(period) => Ok(Period { period, units: Ghost(arbitrary()) }),
        Err(error) => Err(error.to_string()),
    }
}

/// The log period of `millis` milliseconds, or, where the Crazyflie does
/// not accept it, the text of the error.
pub fn log_period(millis: u64) -> (res: Result<Period, String>)
    ensures
        res is Ok <==> valid_log_period(millis),
        res matches Ok(p) ==> p@ == (millis / 10) as nat,
        res matches Err(t) ==> t@ == rejected_period_text(),
{
    log_period_from_millis(millis)
}

} // verus!
