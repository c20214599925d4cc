//! A safe, algorithm-agnostic layer over a native post-quantum
//! key-encapsulation-mechanism (KEM) library.
//!
//! The library owns everything that can be checked: the fixed algorithm
//! catalog, the five semantic byte-buffer kinds, the handle that carries an
//! acquired descriptor's metadata, and the validated operation pipeline that
//! enforces byte-exact length invariants on every buffer crossing into the
//! native code. The native computations themselves (key generation,
//! encapsulation, decapsulation) run outside: each operation is split into a
//! verified phase that validates inputs and pre-sizes outputs, and a verified
//! phase that translates the native status code and finalizes the outputs.

use vstd::prelude::*;

pub mod algorithm;
pub mod buffer;
pub mod kem;
pub mod laws;

verus! {

/// The error conditions the layer can report.
///
/// `AlgorithmDisabled` is raised only by handle creation, when the requested
/// algorithm is not available in the linked native build. `InvalidLength` is
/// raised by a pipeline operation when a supplied buffer's length does not
/// match the handle's declared length for its kind. `OperationFailed` is
/// raised when a native computation reports a non-success status.
#[derive(Clone, Copy, Debug, PartialEq, Eq, Structural)]
pub enum Error {
    AlgorithmDisabled,
    InvalidLength,
    OperationFailed,
}

/// What a native status code means: zero is success, anything else is a
/// failure carrying no further detail.
pub open spec fn spec_status_to_result(status: i32) -> Result<(), Error> {
    if status == 0 {
        Ok(())
    } else {
        Err(Error::OperationFailed)
    }
}

/// Translates a native status code into a typed result.
pub fn status_to_result(status: i32) -> (r: Result<(), Error>)
    ensures
        r == spec_status_to_result(status),
{
    if status == 0 {
        Ok(())
    } else {
        Err(Error::OperationFailed)
    }
}

} // verus!
