//! The power and shell service.

use vstd::prelude::*;

use crate::error::{is_failure, Error, ResultCode};

verus! {

/// Whether the console's lid is shut.
#[derive(Copy, Clone, Debug, PartialEq, Eq, Structural)]
pub enum ShellState {
    Closed,
    Open,
}

/// The power and shell service, initialised.
#[derive(Debug)]
pub struct Ptmu(());

/// What a query of the service gives: the error of a failing result code, the value otherwise.
pub open spec fn outcome<T>(code: i32, value: T) -> Result<T, Error> {
    if is_failure(code) {
        Err(Error::Os(code))
    } else {
        Ok(value)
    }
}

impl Ptmu {
    /// Decides how initialising the service ends, from the result code of the request.
    pub fn init(code: i32) -> (r: Result<Ptmu, Error>)
        ensures
            is_failure(code) ==> r.is_err() && r.unwrap_err() == Error::Os(code),
            !is_failure(code) ==> r.is_ok(),
    {
        match ResultCode(code).into_result() {
            Err(e) => Err(e),
            Ok(_) => Ok(Ptmu(())),
        }
    }

    /// The state of the lid, from the result code of the query and the byte
    /// that the system filled in: 0 for closed, 1 for open. The system gives
    /// no other byte with a succeeding code.
    pub fn get_shell_state(&self, code: i32, state: u8) -> (r: Result<ShellState, Error>)
        requires
            !is_failure(code) ==> state <= 1,
        ensures
            r == outcome(
                code,
                if state == 0 {
                    ShellState::Closed
                } else {
                    ShellState::Open
                },
            ),
    {
        match ResultCode(code).into_result() {
            Err(e) => Err(e),
            Ok(_) => if state == 0 {
                Ok(ShellState::Closed)
            } else {
                Ok(ShellState::Open)
            },
        }
    }

    /// The battery level, from the result code of the query and the level that the system filled in.
    pub fn get_battery_level(&self, code: i32, level: u8) -> (r: Result<u8, Error>)
        ensures
            r == outcome(code, level),
    {
        match ResultCode(code).into_result() {
            Err(e) => Err(e),
            Ok(_) => Ok(level),
        }
    }

    /// Whether the battery is charging, from the result code of the query and
    /// the byte that the system filled in: 0 for no, 1 for yes. The system
    /// gives no other byte with a succeeding code.
    pub fn is_battery_charging(&self, code: i32, charge: u8) -> (r: Result<bool, Error>)
        requires
            !is_failure(code) ==> charge <= 1,
        ensures
            r == outcome(code, charge == 1),
    {
        match ResultCode(code).into_result() {
            Err(e) => Err(e),
            Ok(_) => Ok(charge == 1),
        }
    }

    /// Whether the adapter is plugged in, from the result code of the query
    /// and the flag that the system filled in.
    pub fn is_adapter_plugged_in(&self, code: i32, plugged: bool) -> (r: Result<bool, Error>)
        ensures
            r == outcome(code, plugged),
    {
        match ResultCode(code).into_result() {
            Err(e) => Err(e),
            Ok(_) => Ok(plugged),
        }
    }

    /// Whether the pedometer is counting, from the result code of the query
    /// and the byte that the system filled in: 0 for no, 1 for yes. The
    /// system gives no other byte with a succeeding code.
    pub fn is_pedometer_counting(&self, code: i32, counting: u8) -> (r: Result<bool, Error>)
        requires
            !is_failure(code) ==> counting <= 1,
        ensures
            r == outcome(code, counting == 1),
    {
        match ResultCode(code).into_result() {
            Err(e) => Err(e),
            Ok(_) => Ok(counting == 1),
        }
    }

    /// The total step count, from the result code of the query and the count
    /// that the system filled in.
    pub fn get_total_step_count(&self, code: i32, count: u32) -> (r: Result<u32, Error>)
        ensures
            r == outcome(code, count),
    {
        match ResultCode(code).into_result() {
            Err(e) => Err(e),
            Ok(_) => Ok(count),
        }
    }
}

} // verus!
