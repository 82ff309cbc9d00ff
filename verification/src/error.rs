//! The error taxonomy of a play request.

use vstd::prelude::*;
use vstd::string::StringExecFns;

verus! {

/// Everything that can go wrong with one play request.
///
/// `DeviceBusy` is the transient case: another writer holds the device and
/// the attempt may be retried.  The three others are terminal: a melody the
/// gateway refuses, a device failure that retrying would only mask, and the
/// exhaustion of the retry window.
#[derive(Debug, PartialEq, Eq)]
pub enum SpeakerError {
    DeviceBusy,
    DeviceError(String),
    InvalidMelody(String),
    Timeout,
}

/// How the I/O layer's failure to open or write the device is classified
/// before the library sees it: the two contention conditions are named, and
/// everything else is carried as an opaque detail string.
#[derive(Clone, Copy, Debug, PartialEq, Eq, Structural)]
pub enum IoFailureKind {
    WouldBlock,
    AddrInUse,
    Other,
}

impl SpeakerError {
    /// The human-readable explanation of this error.
    pub open spec fn message_spec(&self) -> Seq<char> {
        match self {
            SpeakerError::DeviceBusy => "Speaker device is busy"@,
            SpeakerError::DeviceError(e) => "Device error: "@ + e@,
            SpeakerError::InvalidMelody(m) => "Invalid melody: "@ + m@,
            SpeakerError::Timeout => "Operation timed out"@,
        }
    }

    /// Renders the error for logs and diagnostics.
    pub fn message(&self) -> (r: String)
        ensures
            r@ == self.message_spec(),
    {
        match self {
            SpeakerError::DeviceBusy => String::from_str("Speaker device is busy"),
            SpeakerError::DeviceError(e) => String::from_str("Device error: ").concat(e.as_str()),
            SpeakerError::InvalidMelody(m) => String::from_str("Invalid melody: ").concat(
                m.as_str(),
            ),
            SpeakerError::Timeout => String::from_str("Operation timed out"),
        }
    }

    /// Buckets a device open or write failure: the conditions that mean
    /// "another caller holds the device" become `DeviceBusy` and may be
    /// retried; every other failure keeps its detail and is terminal.
    pub fn from_io_failure(kind: IoFailureKind, detail: String) -> (r: SpeakerError)
        ensures
            kind == IoFailureKind::WouldBlock || kind == IoFailureKind::AddrInUse ==> r
                == SpeakerError::DeviceBusy,
            kind == IoFailureKind::Other ==> r == SpeakerError::DeviceError(detail),
    {
        match kind {
            IoFailureKind::WouldBlock => SpeakerError::DeviceBusy,
            IoFailureKind::AddrInUse => SpeakerError::DeviceBusy,
            IoFailureKind::Other => SpeakerError::DeviceError(detail),
        }
    }
}

} // verus!
