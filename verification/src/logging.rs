//! Set-up of diagnostic logging.
use vstd::prelude::*;

verus! {

/// Prepares diagnostic logging. The library logs nothing itself, so there is
/// nothing to set up; a program that wants log output installs its own logger.
pub fn init_logger() {
}

} // verus!
