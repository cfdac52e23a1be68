use vstd::prelude::*;

use crate::errors::CliError;

verus! {

/// Milliseconds granted to one blocking connect attempt.
pub const CONNECT_TIMEOUT_MS: u64 = 5000;

/// What kind of serial device an enumeration candidate is.
#[derive(Debug, Clone, Copy, PartialEq, Eq, Structural)]
pub enum DeviceKind {
    /// The brain itself, over its own port.
    Brain,
    /// A controller tethered to the host, radio-linked to the brain.
    Controller,
    /// A serial device whose role could not be classified.
    Unknown,
}

/// Picks which enumerated device to connect to under the default selection
/// predicate: the first device found; an empty enumeration is an error.
pub fn select_device(device_count: usize) -> (r: Result<usize, CliError>)
    ensures
        device_count == 0 ==> r == Err::<usize, CliError>(CliError::NoDevice),
        device_count > 0 ==> r == Ok::<usize, CliError>(0usize),
{
    if device_count == 0 {
        Err(CliError::NoDevice)
    } else {
        Ok(0)
    }
}

/// Picks which enumerated device to connect to under the controller-only
/// selection predicate: the first controller-class device; an enumeration
/// without one is an error.
pub fn select_controller(kinds: &Vec<DeviceKind>) -> (r: Result<usize, CliError>)
    ensures
        (r matches Ok(i) ==> (i < kinds@.len() && kinds@[i as int] == DeviceKind::Controller && (
        forall|j: int| 0 <= j < i ==> kinds@[j] != DeviceKind::Controller))),
        (r is Err ==> (r == Err::<usize, CliError>(CliError::NoController) && (forall|j: int|
            0 <= j < kinds@.len() ==> kinds@[j] != DeviceKind::Controller))),
{
    let mut i: usize = 0;
    while i < kinds.len()
        invariant
            i <= kinds@.len(),
            forall|j: int| 0 <= j < i ==> kinds@[j] != DeviceKind::Controller,
        decreases kinds@.len() - i,
    {
        if kinds[i] == DeviceKind::Controller {
            return Ok(i);
        }
        i += 1;
    }
    Err(CliError::NoController)
}

} // verus!
