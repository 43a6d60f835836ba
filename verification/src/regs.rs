use vstd::prelude::*;

verus! {

/// Serial instruction opcodes, fixed by the controller datasheet.
pub const INSTRUCTION_RESET: u8 = 0xC0;

pub const INSTRUCTION_READ: u8 = 0x03;

pub const INSTRUCTION_WRITE: u8 = 0x02;

pub const INSTRUCTION_BIT_MODIFY: u8 = 0x05;

/// Request-to-send opcode base; the low three bits select transmit buffers.
pub const INSTRUCTION_RTS: u8 = 0x80;

pub const INSTRUCTION_READ_STATUS: u8 = 0xA0;

pub const INSTRUCTION_RX_STATUS: u8 = 0xB0;

/// Control and status register addresses.
pub const CANSTAT: u8 = 0x0E;

pub const CANCTRL: u8 = 0x0F;

pub const CNF3: u8 = 0x28;

pub const CNF2: u8 = 0x29;

pub const CNF1: u8 = 0x2A;

pub const CANINTF: u8 = 0x2C;

/// CANCTRL bit that enables the clock-output pin.
pub const CLKEN_MASK: u8 = 0x04;

/// CANCTRL/CANSTAT bits 7..=5 hold the requested/actual operating mode.
pub const MODE_MASK: u8 = 0xE0;

/// First frame register (SIDH) of transmit buffer `i`: 0x31 + 0x10 * i.
pub const TXB_FRAME_BASE: u8 = 0x31;

/// First frame register (SIDH) of receive buffer `i`: 0x61 + 0x10 * i.
pub const RXB_FRAME_BASE: u8 = 0x61;

/// The operating modes of the controller's state machine. The hardware's
/// current mode is authoritative; a request is confirmed only by reading
/// the same value back from the status register.
#[derive(Debug, Clone, Copy, PartialEq, Eq)]
pub enum OpMode {
    Normal,
    Sleep,
    Loopback,
    ListenOnly,
    Configuration,
}

impl OpMode {
    /// The three-bit REQOP/OPMOD encoding of this mode.
    pub open spec fn spec_bits(self) -> u8 {
        match self {
            OpMode::Normal => 0,
            OpMode::Sleep => 1,
            OpMode::Loopback => 2,
            OpMode::ListenOnly => 3,
            OpMode::Configuration => 4,
        }
    }

    /// Executable counterpart of `spec_bits`.
    pub fn bits(self) -> (r: u8)
        ensures
            r == self.spec_bits(),
    {
        match self {
            OpMode::Normal => 0,
            OpMode::Sleep => 1,
            OpMode::Loopback => 2,
            OpMode::ListenOnly => 3,
            OpMode::Configuration => 4,
        }
    }
}

/// Command frame of one register read: opcode, then the address; one reply
/// byte follows on the bus.
pub fn read_command(addr: u8) -> (v: Vec<u8>)
    ensures
        v@ == seq![INSTRUCTION_READ, addr],
{
    let mut v: Vec<u8> = Vec::new();
    v.push(INSTRUCTION_READ);
    v.push(addr);
    proof {
        assert(v@ =~= seq![INSTRUCTION_READ, addr]);
    }
    v
}

/// Command frame of one register write: opcode, address, value.
pub fn write_command(addr: u8, value: u8) -> (v: Vec<u8>)
    ensures
        v@ == seq![INSTRUCTION_WRITE, addr, value],
{
    let mut v: Vec<u8> = Vec::new();
    v.push(INSTRUCTION_WRITE);
    v.push(addr);
    v.push(value);
    proof {
        assert(v@ =~= seq![INSTRUCTION_WRITE, addr, value]);
    }
    v
}

/// Command frame of one bit-modify: opcode, address, mask, value.
pub fn bit_modify_command(addr: u8, mask: u8, value: u8) -> (v: Vec<u8>)
    ensures
        v@ == seq![INSTRUCTION_BIT_MODIFY, addr, mask, value],
{
    let mut v: Vec<u8> = Vec::new();
    v.push(INSTRUCTION_BIT_MODIFY);
    v.push(addr);
    v.push(mask);
    v.push(value);
    proof {
        assert(v@ =~= seq![INSTRUCTION_BIT_MODIFY, addr, mask, value]);
    }
    v
}

/// Command frame of one request-to-send: the opcode base with the selected
/// buffers' bits in its low three bits.
pub fn rts_command(mask: u8) -> (v: Vec<u8>)
    ensures
        v@ == seq![INSTRUCTION_RTS | (mask & 0x07)],
{
    let mut v: Vec<u8> = Vec::new();
    v.push(INSTRUCTION_RTS | (mask & 0x07));
    proof {
        assert(v@ =~= seq![INSTRUCTION_RTS | (mask & 0x07)]);
    }
    v
}

/// Command frame of a single-opcode instruction (reset, read-status,
/// rx-status): the opcode alone.
pub fn single_command(op: u8) -> (v: Vec<u8>)
    ensures
        v@ == seq![op],
{
    let mut v: Vec<u8> = Vec::new();
    v.push(op);
    proof {
        assert(v@ =~= seq![op]);
    }
    v
}

/// Whether a CANINTF value reports a message error left by an earlier,
/// asynchronous transmission attempt: its bit 7.
pub fn tx_error_flagged(intf: u8) -> (r: bool)
    ensures
        r == (intf & 0x80 != 0),
{
    intf & 0x80 != 0
}

/// Whether a CANSTAT value reports the given mode: its bits 7..=5 equal the
/// mode's encoding.
pub fn mode_matches(canstat: u8, mode: OpMode) -> (r: bool)
    ensures
        r == ((canstat >> 5) == mode.spec_bits()),
{
    (canstat >> 5) == mode.bits()
}

/// Picks the lowest-numbered free transmit buffer from a READ STATUS byte,
/// whose bits 2, 4 and 6 are the pending-transmission flags of buffers 0, 1
/// and 2; `None` exactly when all three are pending.
pub fn select_tx_buffer(status: u8) -> (r: Option<u8>)
    ensures
        status & 0x04 == 0 ==> r == Some(0u8),
        status & 0x04 != 0 && status & 0x10 == 0 ==> r == Some(1u8),
        status & 0x04 != 0 && status & 0x10 != 0 && status & 0x40 == 0 ==> r == Some(2u8),
        status & 0x04 != 0 && status & 0x10 != 0 && status & 0x40 != 0 ==> r is None,
        r matches Some(i) ==> i < 3,
{
    if status & 0x04 == 0 {
        Some(0)
    } else if status & 0x10 == 0 {
        Some(1)
    } else if status & 0x40 == 0 {
        Some(2)
    } else {
        None
    }
}

/// Picks the receive buffer holding a pending frame from an RX STATUS byte,
/// whose bits 6 and 7 flag buffers 0 and 1; buffer 0 wins when both are
/// pending, and `None` means no frame is waiting.
pub fn pending_rx_buffer(rx_status: u8) -> (r: Option<u8>)
    ensures
        rx_status & 0x40 != 0 ==> r == Some(0u8),
        rx_status & 0x40 == 0 && rx_status & 0x80 != 0 ==> r == Some(1u8),
        rx_status & 0x40 == 0 && rx_status & 0x80 == 0 ==> r is None,
        r matches Some(i) ==> i < 2,
{
    if rx_status & 0x40 != 0 {
        Some(0)
    } else if rx_status & 0x80 != 0 {
        Some(1)
    } else {
        None
    }
}

} // verus!
