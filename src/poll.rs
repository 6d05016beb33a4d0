//! The outcome of a non-blocking poll.

use vstd::prelude::*;
use nb::Error as NbError;

verus! {

/// Relies on `nb::Error` (nb 1.x, re-exported by nb 0.1): a poll that did
/// not succeed either must be retried (`WouldBlock`) or failed (`Other`).
#[verifier::external_type_specification]
#[verifier::reject_recursive_types(E)]
pub struct ExNbError<E>(NbError<E>);

} // verus!
