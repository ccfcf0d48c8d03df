//! The errors of the driver, by the kind of failure.

use vstd::prelude::*;

verus! {

/// A caller's input that is rejected before any transfer is issued.
#[derive(Clone, Copy, Debug, PartialEq, Eq, Structural)]
pub enum ValidationFailure {
    /// A stage table with no stage, or with more than the device holds.
    StageCount,
    /// An active stage that is not a position in the table.
    ActiveStage,
    /// A polling rate of a kind that the device does not take.
    PollingRateKind,
    /// Colour text that is not `#RRGGBB`.
    ColorText,
}

/// A response that arrived but cannot be interpreted.
#[derive(Clone, Copy, Debug, PartialEq, Eq, Structural)]
pub enum ProtocolDecodeFailure {
    /// The response does not have the size of a report.
    ResponseSize,
    /// The polling rate byte is none of the known codes.
    PollingRate,
    /// The stage table in the response breaks the table's bounds.
    StageTable,
}

/// Every way an operation of the driver can fail.
#[derive(Clone, Copy, Debug, PartialEq, Eq, Structural)]
pub enum DriverError {
    /// Bad input from the caller.
    Validation(ValidationFailure),
    /// No profile is known for the product id.
    UnsupportedDevice,
    /// The device's profile does not declare the operation.
    UnsupportedOperation,
    /// The control transfer itself failed.
    Transport,
    /// The device answered with something unreadable.
    Decode(ProtocolDecodeFailure),
}

impl DriverError {
    /// True for the errors that are raised without touching the device.
    pub open spec fn is_local(self) -> bool {
        self is Validation || self is UnsupportedDevice || self is UnsupportedOperation
    }

    /// A short text for the error, for a front end to show.
    pub fn message(&self) -> (text: &'static str)
        ensures
            text@ == match *self {
                DriverError::Validation(ValidationFailure::StageCount) =>
                    "DpiStages: Need 1 <= # of DPI stages <= 5"@,
                DriverError::Validation(ValidationFailure::ActiveStage) =>
                    "DpiStages: Need 1 <= active stage <= # of stages"@,
                DriverError::Validation(ValidationFailure::PollingRateKind) =>
                    "Polling rate kind does not match the device"@,
                DriverError::Validation(ValidationFailure::ColorText) =>
                    "Please specify a color in hex (ex: #0cff1d)"@,
                DriverError::UnsupportedDevice => "Unsupported device"@,
                DriverError::UnsupportedOperation => "Unimplemented"@,
                DriverError::Transport => "USB transfer failed"@,
                DriverError::Decode(ProtocolDecodeFailure::ResponseSize) =>
                    "Invalid size of byte response"@,
                DriverError::Decode(ProtocolDecodeFailure::PollingRate) =>
                    "Invalid polling rate response"@,
                DriverError::Decode(ProtocolDecodeFailure::StageTable) =>
                    "Invalid DPI stages response"@,
            },
    {
        match self {
            DriverError::Validation(ValidationFailure::StageCount) => {
                "DpiStages: Need 1 <= # of DPI stages <= 5"
            },
            DriverError::Validation(ValidationFailure::ActiveStage) => {
                "DpiStages: Need 1 <= active stage <= # of stages"
            },
            DriverError::Validation(ValidationFailure::PollingRateKind) => {
                "Polling rate kind does not match the device"
            },
            DriverError::Validation(ValidationFailure::ColorText) => {
                "Please specify a color in hex (ex: #0cff1d)"
            },
            DriverError::UnsupportedDevice => "Unsupported device",
            DriverError::UnsupportedOperation => "Unimplemented",
            DriverError::Transport => "USB transfer failed",
            DriverError::Decode(ProtocolDecodeFailure::ResponseSize) => {
                "Invalid size of byte response"
            },
            DriverError::Decode(ProtocolDecodeFailure::PollingRate) => {
                "Invalid polling rate response"
            },
            DriverError::Decode(ProtocolDecodeFailure::StageTable) => {
                "Invalid DPI stages response"
            },
        }
    }
}

} // verus!
