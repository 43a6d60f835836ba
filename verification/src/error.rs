use vstd::prelude::*;
use crate::timing::{CanSpeed, McpSpeed};

verus! {

/// Outcome alias used throughout the driver; `SPI` is the transport's
/// own error type, carried through opaquely.
pub type Result<T, SPI> = core::result::Result<T, Error<SPI>>;

/// Every failure the driver reports. A flat enumeration: no kind is ever
/// consumed internally for control flow, each is returned to the caller.
#[derive(Debug, Copy, Clone, PartialEq, Eq)]
pub enum Error<SPI> {
    /// The controller did not acknowledge a requested mode change
    /// within the polling budget.
    NewModeTimeout,
    /// Every transmit buffer is pending transmission; nothing was written.
    TxBusy,
    /// A previously issued transmission was aborted or hit a bus error.
    TxFailed,
    /// No receive buffer holds a pending frame.
    NoMessage,
    /// A received identifier's unused layout bits were not zero.
    InvalidFrameId,
    /// A received data-length code was outside 0..=8.
    InvalidDlc,
    /// The requested bus speed is not available from the given oscillator.
    InvalidConfiguration(CanSpeed, McpSpeed),
    /// The underlying serial transport failed; its error is passed through.
    Spi(SPI),
}

} // verus!
