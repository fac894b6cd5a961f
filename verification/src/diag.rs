//! Declarations for the I/O error type that the decoding libraries report
//! their diagnostics through, and its rendering as text.

use vstd::prelude::*;

verus! {

#[verifier::external_type_specification]
#[verifier::external_body]
pub struct ExIoError(std::io::Error);

/// Relies on `std::io::Error`'s `Display` impl: renders the diagnostic.
#[verifier::external_body]
pub fn io_error_message(e: &std::io::Error) -> String {
    format!("{}", e)
}

} // verus!
