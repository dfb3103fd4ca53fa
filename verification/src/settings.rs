//! The sensor simulator's settings, read from its command-line arguments.
use vstd::prelude::*;
use crate::decimal::spec_parse_decimal;
use crate::decimal::parse_decimal;

verus! {

/// Where the simulator sends its samples unless told otherwise.
pub open spec fn default_target() -> Seq<char> {
    "127.0.0.1:8080"@
}

/// How many milliseconds the simulator waits between samples unless told
/// otherwise.
pub const DEFAULT_INTERVAL_MS: u64 = 2000;

/// The address to send samples to: the first argument if there is one.
pub fn target_address<'a>(arg: Option<&'a str>) -> (address: &'a str)
    ensures
        address@ == match arg {
            Some(a) => a@,
            None => default_target(),
        },
{
    match arg {
        Some(a) => a,
        None => "127.0.0.1:8080",
    }
}

/// The wait between samples in milliseconds: the second argument read as an
/// unsigned number, or the default when it is missing or is not one.
pub fn interval_ms(arg: Option<&str>) -> (ms: u64)
    ensures
        ms == match arg {
            Some(a) => match spec_parse_decimal(a@) {
                Some(v) => v,
                None => DEFAULT_INTERVAL_MS,
            },
            None => DEFAULT_INTERVAL_MS,
        },
{
    match arg {
        Some(a) => match parse_decimal(a) {
            Some(v) => v,
            None => DEFAULT_INTERVAL_MS,
        },
        None => DEFAULT_INTERVAL_MS,
    }
}

} // verus!
