use std::cell::RefCell;
use std::rc::Rc;

use mcp2515::error::Error;
use mcp2515::frame::{CanFrame, Id};
use mcp2515::regs::OpMode;
use mcp2515::{CanSpeed, Delay, McpSpeed, Settings, Transport, MCP2515, MODE_POLL_BUDGET};

/// A register-level simulation of the peripheral, driven entirely by the
/// byte protocol the driver emits.
struct ChipState {
    regs: [u8; 128],
    /// Mirror requested mode bits into the status register immediately.
    ack_mode: bool,
    /// Wire request-to-send straight into receive buffer 0, as the chip's
    /// loopback mode does.
    loopback_wired: bool,
    canstat_reads: u32,
    buffer_reads: u32,
    register_writes: u32,
}

impl ChipState {
    fn new(ack_mode: bool, loopback_wired: bool) -> ChipState {
        ChipState {
            regs: [0; 128],
            ack_mode,
            loopback_wired,
            canstat_reads: 0,
            buffer_reads: 0,
            register_writes: 0,
        }
    }

    fn handle_write(&mut self, tx: &[u8]) {
        match tx[0] {
            0xC0 => {
                // Reset: documented post-reset state is Configuration mode.
                self.regs = [0; 128];
                self.regs[0x0E] = 0x80;
            }
            0x02 => {
                self.register_writes += 1;
                self.regs[tx[1] as usize] = tx[2];
            }
            0x05 => {
                self.register_writes += 1;
                let a = tx[1] as usize;
                let mask = tx[2];
                self.regs[a] = (self.regs[a] & !mask) | (tx[3] & mask);
                if a == 0x0F && self.ack_mode {
                    self.regs[0x0E] = (self.regs[0x0E] & 0x1F) | (self.regs[0x0F] & 0xE0);
                }
            }
            op if op & 0xF8 == 0x80 => {
                if self.loopback_wired {
                    for i in 0..3 {
                        if op & (1 << i) != 0 {
                            for k in 0..13 {
                                self.regs[0x61 + k] = self.regs[0x31 + 0x10 * i + k];
                            }
                            self.regs[0x2C] |= 0x01;
                        }
                    }
                }
            }
            _ => panic!("unexpected command {:#x}", tx[0]),
        }
    }

    fn handle_exchange(&mut self, tx: &[u8]) -> u8 {
        match tx[0] {
            0x03 => {
                let a = tx[1] as usize;
                if a == 0x0E {
                    self.canstat_reads += 1;
                }
                if (0x61..=0x7D).contains(&a) {
                    self.buffer_reads += 1;
                }
                self.regs[a]
            }
            0xA0 => {
                let mut s = self.regs[0x2C] & 0x03;
                if self.regs[0x30] & 0x08 != 0 {
                    s |= 0x04;
                }
                if self.regs[0x40] & 0x08 != 0 {
                    s |= 0x10;
                }
                if self.regs[0x50] & 0x08 != 0 {
                    s |= 0x40;
                }
                s
            }
            0xB0 => {
                let mut s = 0;
                if self.regs[0x2C] & 0x01 != 0 {
                    s |= 0x40;
                }
                if self.regs[0x2C] & 0x02 != 0 {
                    s |= 0x80;
                }
                s
            }
            _ => panic!("unexpected command {:#x}", tx[0]),
        }
    }
}

struct MockSpi(Rc<RefCell<ChipState>>);

impl Transport for MockSpi {
    type TErr = u8;

    fn write_bytes(&mut self, tx: &Vec<u8>) -> Result<(), u8> {
        self.0.borrow_mut().handle_write(tx);
        Ok(())
    }

    fn exchange(&mut self, tx: &Vec<u8>) -> Result<u8, u8> {
        Ok(self.0.borrow_mut().handle_exchange(tx))
    }
}

struct NoDelay;

impl Delay for NoDelay {
    fn delay_ms(&mut self, _ms: u32) {}
}

fn settings(mode: OpMode) -> Settings {
    Settings {
        mode,
        can_speed: CanSpeed::Kbps100,
        mcp_speed: McpSpeed::MHz8,
        clkout_en: false,
    }
}

#[test]
fn init_succeeds_after_one_poll_when_mode_is_acknowledged() {
    let chip = Rc::new(RefCell::new(ChipState::new(true, false)));
    let mut can = MCP2515::new(MockSpi(chip.clone()));
    assert_eq!(can.init(&mut NoDelay, settings(OpMode::Normal)), Ok(()));
    assert_eq!(chip.borrow().canstat_reads, 1);
}

#[test]
fn init_times_out_after_exactly_the_poll_budget() {
    let chip = Rc::new(RefCell::new(ChipState::new(false, false)));
    let mut can = MCP2515::new(MockSpi(chip.clone()));
    assert_eq!(
        can.init(&mut NoDelay, settings(OpMode::Normal)),
        Err(Error::NewModeTimeout)
    );
    assert_eq!(chip.borrow().canstat_reads, MODE_POLL_BUDGET);
}

#[test]
fn init_rejects_unsupported_timing_before_any_exchange() {
    let chip = Rc::new(RefCell::new(ChipState::new(true, false)));
    let mut can = MCP2515::new(MockSpi(chip.clone()));
    let s = Settings {
        mode: OpMode::Normal,
        can_speed: CanSpeed::Kbps1000,
        mcp_speed: McpSpeed::MHz8,
        clkout_en: false,
    };
    assert_eq!(
        can.init(&mut NoDelay, s),
        Err(Error::InvalidConfiguration(CanSpeed::Kbps1000, McpSpeed::MHz8))
    );
    assert_eq!(chip.borrow().register_writes, 0);
    assert_eq!(chip.borrow().canstat_reads, 0);
}

#[test]
fn send_fails_busy_without_writing_when_all_buffers_pend() {
    let chip = Rc::new(RefCell::new(ChipState::new(true, false)));
    {
        let mut c = chip.borrow_mut();
        // Pending-transmission flag of each transmit buffer.
        c.regs[0x30] = 0x08;
        c.regs[0x40] = 0x08;
        c.regs[0x50] = 0x08;
    }
    let mut can = MCP2515::new(MockSpi(chip.clone()));
    let frame = CanFrame::new(Id::Standard(0x42), &[1]).unwrap();
    assert_eq!(can.send_message(frame), Err(Error::TxBusy));
    assert_eq!(chip.borrow().register_writes, 0);
}

#[test]
fn send_surfaces_earlier_transmit_failure_once() {
    let chip = Rc::new(RefCell::new(ChipState::new(true, true)));
    {
        // Message-error flag left by an earlier asynchronous attempt.
        chip.borrow_mut().regs[0x2C] = 0x80;
    }
    let mut can = MCP2515::new(MockSpi(chip.clone()));
    let frame = CanFrame::new(Id::Standard(0x42), &[1]).unwrap();
    assert_eq!(can.send_message(frame), Err(Error::TxFailed));
    assert_eq!(chip.borrow().regs[0x2C] & 0x80, 0);
    // The flag is cleared, so the retry goes through.
    assert_eq!(can.send_message(frame), Ok(()));
}

#[test]
fn receive_fails_no_message_without_reading_buffers() {
    let chip = Rc::new(RefCell::new(ChipState::new(true, false)));
    let mut can = MCP2515::new(MockSpi(chip.clone()));
    assert_eq!(can.read_message(), Err(Error::NoMessage));
    assert_eq!(chip.borrow().buffer_reads, 0);
}

#[test]
fn receive_reports_invalid_dlc_and_still_clears_the_flag() {
    let chip = Rc::new(RefCell::new(ChipState::new(true, false)));
    {
        let mut c = chip.borrow_mut();
        c.regs[0x2C] = 0x01; // receive buffer 0 pending
        c.regs[0x65] = 0x0E; // malformed length code in its DLC register
    }
    let mut can = MCP2515::new(MockSpi(chip.clone()));
    assert_eq!(can.read_message(), Err(Error::InvalidDlc));
    // A follow-up status read shows the pending flag cleared.
    assert_eq!(chip.borrow().regs[0x2C] & 0x01, 0);
    assert_eq!(can.read_message(), Err(Error::NoMessage));
}

#[test]
fn loopback_round_trip_end_to_end() {
    let chip = Rc::new(RefCell::new(ChipState::new(true, true)));
    let mut can = MCP2515::new(MockSpi(chip.clone()));
    assert_eq!(can.init(&mut NoDelay, settings(OpMode::Loopback)), Ok(()));
    let frame =
        CanFrame::new(Id::Extended(0x1FFF_FFFF), &[1, 2, 3, 4, 5, 6, 7, 8]).unwrap();
    assert_eq!(can.send_message(frame), Ok(()));
    let received = can.read_message().unwrap();
    assert_eq!(received, frame);
    // The buffer is released once read.
    assert_eq!(can.read_message(), Err(Error::NoMessage));
}
