use vstd::prelude::*;
use crate::error::Error;

verus! {

/// Oscillator frequency class of the crystal driving the controller.
#[derive(Debug, Clone, Copy, PartialEq, Eq)]
pub enum McpSpeed {
    MHz8,
    MHz16,
}

/// Desired CAN bus speed, one of the standard bitrates.
#[derive(Debug, Clone, Copy, PartialEq, Eq)]
pub enum CanSpeed {
    Kbps5,
    Kbps10,
    Kbps20,
    Kbps50,
    Kbps100,
    Kbps125,
    Kbps250,
    Kbps500,
    Kbps1000,
}

/// The closed bit-timing table: each supported (oscillator, speed) pair maps
/// to exactly one (CNF1, CNF2, CNF3) triple taken from the controller
/// datasheet's timing recommendations; every other pair is unsupported.
pub open spec fn spec_resolve(oscillator: McpSpeed, speed: CanSpeed) -> Option<(u8, u8, u8)> {
    match oscillator {
        McpSpeed::MHz8 => match speed {
            CanSpeed::Kbps5 => Some((0x1F, 0xFF, 0x87)),
            CanSpeed::Kbps10 => Some((0x0F, 0xFF, 0x87)),
            CanSpeed::Kbps20 => Some((0x07, 0xFF, 0x87)),
            CanSpeed::Kbps50 => Some((0x03, 0xFA, 0x87)),
            CanSpeed::Kbps100 => Some((0x01, 0xFA, 0x87)),
            CanSpeed::Kbps125 => Some((0x01, 0xF0, 0x86)),
            CanSpeed::Kbps250 => Some((0x00, 0xF1, 0x85)),
            CanSpeed::Kbps500 => Some((0x00, 0xF0, 0x86)),
            CanSpeed::Kbps1000 => None,
        },
        McpSpeed::MHz16 => match speed {
            CanSpeed::Kbps5 => Some((0x3F, 0xFF, 0x87)),
            CanSpeed::Kbps10 => Some((0x1F, 0xFF, 0x87)),
            CanSpeed::Kbps20 => Some((0x0F, 0xFF, 0x87)),
            CanSpeed::Kbps50 => Some((0x07, 0xFA, 0x87)),
            CanSpeed::Kbps100 => Some((0x03, 0xFA, 0x87)),
            CanSpeed::Kbps125 => Some((0x03, 0xF0, 0x86)),
            CanSpeed::Kbps250 => Some((0x41, 0xF1, 0x85)),
            CanSpeed::Kbps500 => Some((0x00, 0xF0, 0x86)),
            CanSpeed::Kbps1000 => Some((0x00, 0xD0, 0x82)),
        },
    }
}

/// Looks up the three timing-register values for the requested combination.
///
/// The result is a pure function of the inputs: it equals `spec_resolve`
/// exactly, so two calls with the same inputs always return the same triple,
/// and an unsupported combination always fails with `InvalidConfiguration`
/// carrying the offending pair, never a partial or approximate timing.
pub fn resolve<E>(oscillator: McpSpeed, speed: CanSpeed) -> (r: Result<(u8, u8, u8), Error<E>>)
    ensures
        match spec_resolve(oscillator, speed) {
            Some(t) => r == Ok::<(u8, u8, u8), Error<E>>(t),
            None => r == Err::<(u8, u8, u8), Error<E>>(
                Error::InvalidConfiguration(speed, oscillator),
            ),
        },
{
    match oscillator {
        McpSpeed::MHz8 => match speed {
            CanSpeed::Kbps5 => Ok((0x1F, 0xFF, 0x87)),
            CanSpeed::Kbps10 => Ok((0x0F, 0xFF, 0x87)),
            CanSpeed::Kbps20 => Ok((0x07, 0xFF, 0x87)),
            CanSpeed::Kbps50 => Ok((0x03, 0xFA, 0x87)),
            CanSpeed::Kbps100 => Ok((0x01, 0xFA, 0x87)),
            CanSpeed::Kbps125 => Ok((0x01, 0xF0, 0x86)),
            CanSpeed::Kbps250 => Ok((0x00, 0xF1, 0x85)),
            CanSpeed::Kbps500 => Ok((0x00, 0xF0, 0x86)),
            CanSpeed::Kbps1000 => Err(Error::InvalidConfiguration(speed, oscillator)),
        },
        McpSpeed::MHz16 => match speed {
            CanSpeed::Kbps5 => Ok((0x3F, 0xFF, 0x87)),
            CanSpeed::Kbps10 => Ok((0x1F, 0xFF, 0x87)),
            CanSpeed::Kbps20 => Ok((0x0F, 0xFF, 0x87)),
            CanSpeed::Kbps50 => Ok((0x07, 0xFA, 0x87)),
            CanSpeed::Kbps100 => Ok((0x03, 0xFA, 0x87)),
            CanSpeed::Kbps125 => Ok((0x03, 0xF0, 0x86)),
            CanSpeed::Kbps250 => Ok((0x41, 0xF1, 0x85)),
            CanSpeed::Kbps500 => Ok((0x00, 0xF0, 0x86)),
            CanSpeed::Kbps1000 => Ok((0x00, 0xD0, 0x82)),
        },
    }
}

} // verus!
