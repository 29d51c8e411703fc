//! The ways a print job can fail.

use vstd::prelude::*;

verus! {

/// Why a print job did not complete. Every failure ends the job; nothing is
/// retried.
#[derive(Clone, Copy, Debug, PartialEq, Eq, Structural)]
pub enum PrintError {
    /// A QR payload cannot be encoded into a symbol that is printed.
    EncodingError,
    /// No attached device carries the requested vendor and product id.
    DeviceNotFoundError,
    /// The matching device could not be opened.
    DeviceOpenError,
    /// The kernel driver could not be detached, or the interface could not
    /// be claimed or handed back.
    InterfaceClaimError,
    /// The active configuration has no bulk OUT endpoint.
    NoEndpointError,
    /// The write timed out, failed, or stopped short of the full payload.
    WriteError,
}

impl PrintError {
    /// A short human-readable description of the failure.
    pub fn message(&self) -> (text: &'static str)
        ensures
            text@ == match *self {
                PrintError::EncodingError => "QR payload cannot be encoded"@,
                PrintError::DeviceNotFoundError => "Thermal printer not found"@,
                PrintError::DeviceOpenError => "Thermal printer could not be opened"@,
                PrintError::InterfaceClaimError => "Printer interface could not be claimed"@,
                PrintError::NoEndpointError => "No suitable bulk out endpoint found"@,
                PrintError::WriteError => "Write to the printer failed"@,
            },
    {
        match self {
            PrintError::EncodingError => "QR payload cannot be encoded",
            PrintError::DeviceNotFoundError => "Thermal printer not found",
            PrintError::DeviceOpenError => "Thermal printer could not be opened",
            PrintError::InterfaceClaimError => "Printer interface could not be claimed",
            PrintError::NoEndpointError => "No suitable bulk out endpoint found",
            PrintError::WriteError => "Write to the printer failed",
        }
    }
}

} // verus!
