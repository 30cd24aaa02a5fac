//! Error taxonomy: low-level I/O failure kinds, the library's own error type,
//! and the classifier that maps failures into a small closed set of
//! peripheral error kinds.

use vstd::prelude::*;

verus! {

/// The low-level I/O failure kinds the driver layer can report. Only
/// `InvalidData` and `WouldBlock` are ever distinguished by the classifier;
/// the remaining kinds all fall into the unclassified bucket.
#[derive(Clone, Copy, Debug, PartialEq, Eq, Structural)]
pub enum IoErrorKind {
    NotFound,
    PermissionDenied,
    InvalidInput,
    InvalidData,
    WouldBlock,
    TimedOut,
    Interrupted,
    Unsupported,
    Other,
}

/// A low-level failure surfaced by the driver: either an I/O error of some
/// kind, or a request the device cannot satisfy.
#[derive(Clone, Copy, Debug, PartialEq, Eq, Structural)]
pub enum Error {
    Io(IoErrorKind),
    UnsupportedOperation,
}

/// The closed set of peripheral error kinds exposed to consumers. Callers
/// branch on the kind only to decide retry-worthiness.
#[derive(Clone, Copy, Debug, PartialEq, Eq, Structural)]
pub enum PeripheralErrorKind {
    Bus,
    ArbitrationLoss,
    Other,
}

/// Classification of a failure on an I2C operation: invalid data on the wire
/// is a bus error, a would-block condition is an arbitration loss, and
/// everything else is unclassified.
pub open spec fn spec_classify_i2c(e: Error) -> PeripheralErrorKind {
    match e {
        Error::Io(IoErrorKind::InvalidData) => PeripheralErrorKind::Bus,
        Error::Io(IoErrorKind::WouldBlock) => PeripheralErrorKind::ArbitrationLoss,
        _ => PeripheralErrorKind::Other,
    }
}

/// Classifies a failure that occurred on an I2C operation.
pub fn classify_i2c(e: &Error) -> (kind: PeripheralErrorKind)
    ensures
        kind == spec_classify_i2c(*e),
{
    match e {
        Error::Io(IoErrorKind::InvalidData) => PeripheralErrorKind::Bus,
        Error::Io(IoErrorKind::WouldBlock) => PeripheralErrorKind::ArbitrationLoss,
        _ => PeripheralErrorKind::Other,
    }
}

/// Classifies a failure that occurred on an SPI operation. No finer-grained
/// mapping exists: every SPI failure is unclassified.
pub fn classify_spi(e: &Error) -> (kind: PeripheralErrorKind)
    ensures
        kind == PeripheralErrorKind::Other,
{
    PeripheralErrorKind::Other
}

/// Classifies a failure that occurred on a PWM operation. Every PWM failure
/// is unclassified.
pub fn classify_pwm(e: &Error) -> (kind: PeripheralErrorKind)
    ensures
        kind == PeripheralErrorKind::Other,
{
    PeripheralErrorKind::Other
}

/// Classifies a failure that occurred on a UART operation. Every UART failure
/// is unclassified.
pub fn classify_uart(e: &Error) -> (kind: PeripheralErrorKind)
    ensures
        kind == PeripheralErrorKind::Other,
{
    PeripheralErrorKind::Other
}

} // verus!
