//! Driver for the MCP2515 CAN-bus controller, spoken to exclusively over a
//! synchronous serial bus. The crate translates a chip-agnostic CAN frame
//! into the controller's register-level byte protocol, walks the chip
//! through its operating-mode state machine with bounded polling, and
//! resolves bit-timing register values from a requested bus speed and
//! oscillator class. The serial transport and the delay source are
//! capabilities the caller supplies through the `Transport` and `Delay`
//! traits.

use vstd::prelude::*;

pub mod error;
pub mod frame;
pub mod regs;
pub mod timing;

pub use timing::{CanSpeed, McpSpeed, resolve};

use crate::error::Error;
use crate::frame::{CanFrame, decode, encode};
use crate::regs::{
    CANCTRL, CANINTF, CANSTAT, CLKEN_MASK, CNF1, CNF2, CNF3, INSTRUCTION_READ_STATUS,
    INSTRUCTION_RESET, INSTRUCTION_RX_STATUS, MODE_MASK, OpMode, RXB_FRAME_BASE, TXB_FRAME_BASE,
    bit_modify_command, mode_matches, pending_rx_buffer, read_command, rts_command,
    select_tx_buffer, single_command, tx_error_flagged, write_command,
};
use crate::timing::spec_resolve;

verus! {

/// The transport adapter the driver runs on: one exclusive, chip-select
/// scoped serial exchange per call. Implementations assert chip-select,
/// move the bytes, and release chip-select on every exit path; sharing the
/// bus safely is their contract, not the driver's.
pub trait Transport {
    /// The transport's own error type, passed through opaquely as
    /// `Error::Spi`.
    type TErr;

    /// Transmit the bytes of `tx`; no reply is read.
    fn write_bytes(&mut self, tx: &Vec<u8>) -> core::result::Result<(), Self::TErr>;

    /// Transmit the bytes of `tx`, then read one reply byte within the same
    /// exchange.
    fn exchange(&mut self, tx: &Vec<u8>) -> core::result::Result<u8, Self::TErr>;
}

/// The blocking delay provider used only inside the mode-change poll loop.
pub trait Delay {
    /// Block for at least `ms` milliseconds.
    fn delay_ms(&mut self, ms: u32);
}

/// One-time configuration supplied to `init`. Never mutated afterwards:
/// reconfiguration means running `init` again.
#[derive(Debug, Clone, Copy, PartialEq, Eq)]
pub struct Settings {
    /// Operating mode requested once initialization completes.
    pub mode: OpMode,
    /// Desired bus speed.
    pub can_speed: CanSpeed,
    /// Oscillator class feeding the controller.
    pub mcp_speed: McpSpeed,
    /// Whether the controller's clock-output pin is enabled.
    pub clkout_en: bool,
}

/// How many times a requested mode change is polled for acknowledgement
/// before `set_mode` gives up with `NewModeTimeout`.
pub const MODE_POLL_BUDGET: u32 = 10;

/// Milliseconds waited between two acknowledgement polls.
pub const MODE_POLL_DELAY_MS: u32 = 5;

/// The driver. It holds no shadow copy of peripheral state: every decision
/// is recomputed from register values read over the transport.
pub struct MCP2515<T: Transport> {
    spi: T,
}

impl<T: Transport> MCP2515<T> {
    /// Wraps a transport; no exchange happens until `init`.
    pub fn new(spi: T) -> (r: MCP2515<T>) {
        MCP2515 { spi }
    }

    /// One READ exchange: opcode, address, one reply byte.
    fn read_register(&mut self, addr: u8) -> (r: Result<u8, Error<T::TErr>>)
        ensures
            r matches Err(e) ==> e is Spi,
    {
        let tx = read_command(addr);
        match self.spi.exchange(&tx) {
            Ok(b) => Ok(b),
            Err(e) => Err(Error::Spi(e)),
        }
    }

    /// One WRITE exchange: opcode, address, value.
    fn write_register(&mut self, addr: u8, value: u8) -> (r: Result<(), Error<T::TErr>>)
        ensures
            r matches Err(e) ==> e is Spi,
    {
        let tx = write_command(addr, value);
        match self.spi.write_bytes(&tx) {
            Ok(()) => Ok(()),
            Err(e) => Err(Error::Spi(e)),
        }
    }

    /// One BIT MODIFY exchange: opcode, address, mask, value. Only the bits
    /// set in `mask` change, without a read-modify-write round trip.
    fn modify_register(&mut self, addr: u8, mask: u8, value: u8) -> (r: Result<
        (),
        Error<T::TErr>,
    >)
        ensures
            r matches Err(e) ==> e is Spi,
    {
        let tx = bit_modify_command(addr, mask, value);
        match self.spi.write_bytes(&tx) {
            Ok(()) => Ok(()),
            Err(e) => Err(Error::Spi(e)),
        }
    }

    /// One RTS exchange; the low three bits of `mask` select the transmit
    /// buffers whose transmission is requested.
    fn request_to_send(&mut self, mask: u8) -> (r: Result<(), Error<T::TErr>>)
        ensures
            r matches Err(e) ==> e is Spi,
    {
        let tx = rts_command(mask);
        match self.spi.write_bytes(&tx) {
            Ok(()) => Ok(()),
            Err(e) => Err(Error::Spi(e)),
        }
    }

    /// One READ STATUS exchange; the reply packs the pending-transmission
    /// and receive-full flags.
    fn read_status(&mut self) -> (r: Result<u8, Error<T::TErr>>)
        ensures
            r matches Err(e) ==> e is Spi,
    {
        let tx = single_command(INSTRUCTION_READ_STATUS);
        match self.spi.exchange(&tx) {
            Ok(b) => Ok(b),
            Err(e) => Err(Error::Spi(e)),
        }
    }

    /// One RX STATUS exchange; bits 6 and 7 of the reply flag pending
    /// frames in receive buffers 0 and 1.
    fn read_rx_status(&mut self) -> (r: Result<u8, Error<T::TErr>>)
        ensures
            r matches Err(e) ==> e is Spi,
    {
        let tx = single_command(INSTRUCTION_RX_STATUS);
        match self.spi.exchange(&tx) {
            Ok(b) => Ok(b),
            Err(e) => Err(Error::Spi(e)),
        }
    }

    /// One RESET exchange. The controller's documented post-reset state is
    /// Configuration mode.
    fn reset(&mut self) -> (r: Result<(), Error<T::TErr>>)
        ensures
            r matches Err(e) ==> e is Spi,
    {
        let tx = single_command(INSTRUCTION_RESET);
        match self.spi.write_bytes(&tx) {
            Ok(()) => Ok(()),
            Err(e) => Err(Error::Spi(e)),
        }
    }

    /// Requests operating mode `mode` and polls the status register until
    /// the hardware reports it, at most `MODE_POLL_BUDGET` polls with a
    /// delay between consecutive ones. The only failures are the transport's
    /// own and an exhausted budget, reported as `NewModeTimeout`.
    pub fn set_mode<D: Delay>(&mut self, delay: &mut D, mode: OpMode) -> (r: Result<
        (),
        Error<T::TErr>,
    >)
        ensures
            r matches Err(e) ==> (e is NewModeTimeout || e is Spi),
    {
        let bits = mode.bits();
        match self.modify_register(CANCTRL, MODE_MASK, bits << 5) {
            Ok(()) => (),
            Err(e) => {
                return Err(e);
            },
        }
        let mut i: u32 = 0;
        while i < MODE_POLL_BUDGET
            invariant
                i <= MODE_POLL_BUDGET,
            decreases MODE_POLL_BUDGET - i,
        {
            let stat = match self.read_register(CANSTAT) {
                Ok(v) => v,
                Err(e) => {
                    return Err(e);
                },
            };
            if mode_matches(stat, mode) {
                return Ok(());
            }
            delay.delay_ms(MODE_POLL_DELAY_MS);
            i = i + 1;
        }
        Err(Error::NewModeTimeout)
    }

    /// Brings the controller up: validates the timing combination, resets
    /// the chip into Configuration mode, writes the three resolved timing
    /// registers, optionally enables the clock output, then requests and
    /// confirms the target mode.
    ///
    /// An unsupported (speed, oscillator) combination fails with exactly
    /// `InvalidConfiguration` before any exchange; a supported one fails
    /// only with the transport's own error or `NewModeTimeout`. A failure
    /// after the reset leaves the chip in Configuration mode, safe for
    /// re-initialization; nothing is rolled back.
    pub fn init<D: Delay>(&mut self, delay: &mut D, settings: Settings) -> (r: Result<
        (),
        Error<T::TErr>,
    >)
        ensures
            spec_resolve(settings.mcp_speed, settings.can_speed) is None ==> r == Err::<
                (),
                Error<T::TErr>,
            >(Error::InvalidConfiguration(settings.can_speed, settings.mcp_speed)),
            spec_resolve(settings.mcp_speed, settings.can_speed) is Some ==> (r matches Err(e)
                ==> (e is NewModeTimeout || e is Spi)),
    {
        let cnf = match resolve(settings.mcp_speed, settings.can_speed) {
            Ok(t) => t,
            Err(e) => {
                return Err(e);
            },
        };
        match self.reset() {
            Ok(()) => (),
            Err(e) => {
                return Err(e);
            },
        }
        match self.write_register(CNF1, cnf.0) {
            Ok(()) => (),
            Err(e) => {
                return Err(e);
            },
        }
        match self.write_register(CNF2, cnf.1) {
            Ok(()) => (),
            Err(e) => {
                return Err(e);
            },
        }
        match self.write_register(CNF3, cnf.2) {
            Ok(()) => (),
            Err(e) => {
                return Err(e);
            },
        }
        if settings.clkout_en {
            match self.modify_register(CANCTRL, CLKEN_MASK, CLKEN_MASK) {
                Ok(()) => (),
                Err(e) => {
                    return Err(e);
                },
            }
        }
        self.set_mode(delay, settings.mode)
    }

    /// Queues a frame for transmission: picks the lowest free transmit
    /// buffer from one status read, writes the encoded frame into its
    /// registers, and issues request-to-send for that buffer alone.
    ///
    /// With every buffer pending the call fails with `TxBusy` after the
    /// status read and nothing else. A transmit abort or bus error that the
    /// controller has flagged since an earlier send is surfaced here as
    /// `TxFailed`, with the flag cleared so a retry can proceed. The call
    /// never waits for bus-level completion: success means the frame is
    /// handed to the controller's asynchronous arbitration.
    pub fn send_message(&mut self, frame: CanFrame) -> (r: Result<(), Error<T::TErr>>)
        requires
            frame.wf(),
        ensures
            r matches Err(e) ==> (e is TxBusy || e is TxFailed || e is Spi),
    {
        let status = match self.read_status() {
            Ok(v) => v,
            Err(e) => {
                return Err(e);
            },
        };
        let idx = match select_tx_buffer(status) {
            Some(i) => i,
            None => {
                return Err(Error::TxBusy);
            },
        };
        let intf = match self.read_register(CANINTF) {
            Ok(v) => v,
            Err(e) => {
                return Err(e);
            },
        };
        if tx_error_flagged(intf) {
            // A message-error flag from an earlier, asynchronous
            // transmission attempt: clear it and report the failure.
            match self.modify_register(CANINTF, 0x80, 0x00) {
                Ok(()) => (),
                Err(e) => {
                    return Err(e);
                },
            }
            return Err(Error::TxFailed);
        }
        let buf = encode(&frame);
        let mut i: u8 = 0;
        while i < 13
            invariant
                i <= 13,
                idx < 3,
            decreases 13 - i,
        {
            let addr = TXB_FRAME_BASE + 0x10 * idx + i;
            match self.write_register(addr, buf[i as usize]) {
                Ok(()) => (),
                Err(e) => {
                    return Err(e);
                },
            }
            i = i + 1;
        }
        self.request_to_send(1u8 << idx)
    }

    /// Fetches the next pending frame: one RX STATUS read picks the buffer
    /// (buffer 0 first), its thirteen frame registers are read and decoded,
    /// and the buffer's receive-interrupt flag is cleared — also when
    /// decoding fails, so the buffer is never left stuck.
    ///
    /// With no pending buffer the call fails with `NoMessage` after the
    /// status read and nothing else; decode validation failures propagate
    /// as `InvalidDlc` or `InvalidFrameId`. A returned frame is well formed.
    pub fn read_message(&mut self) -> (r: Result<CanFrame, Error<T::TErr>>)
        ensures
            r matches Ok(f) ==> f.wf(),
            r matches Err(e) ==> (e is NoMessage || e is InvalidDlc || e is InvalidFrameId
                || e is Spi),
    {
        let rx_status = match self.read_rx_status() {
            Ok(v) => v,
            Err(e) => {
                return Err(e);
            },
        };
        let idx = match pending_rx_buffer(rx_status) {
            Some(i) => i,
            None => {
                return Err(Error::NoMessage);
            },
        };
        let mut buf: [u8; 13] = [0; 13];
        let mut i: u8 = 0;
        while i < 13
            invariant
                i <= 13,
                idx < 2,
            decreases 13 - i,
        {
            let addr = RXB_FRAME_BASE + 0x10 * idx + i;
            let v = match self.read_register(addr) {
                Ok(v) => v,
                Err(e) => {
                    return Err(e);
                },
            };
            buf[i as usize] = v;
            i = i + 1;
        }
        let decoded = decode::<T::TErr>(&buf);
        // Clear the receive-interrupt flag regardless of the decode
        // outcome, so the controller can reuse the buffer.
        match self.modify_register(CANINTF, 1u8 << idx, 0x00) {
            Ok(()) => (),
            Err(e) => {
                return Err(e);
            },
        }
        decoded
    }
}

} // verus!
