use mcp2515::error::Error;
use mcp2515::{resolve, CanSpeed, McpSpeed};

#[test]
fn resolve_gives_exact_triples() {
    assert_eq!(
        resolve::<u8>(McpSpeed::MHz8, CanSpeed::Kbps100),
        Ok((0x01, 0xFA, 0x87))
    );
    assert_eq!(
        resolve::<u8>(McpSpeed::MHz16, CanSpeed::Kbps250),
        Ok((0x41, 0xF1, 0x85))
    );
    assert_eq!(
        resolve::<u8>(McpSpeed::MHz16, CanSpeed::Kbps1000),
        Ok((0x00, 0xD0, 0x82))
    );
}

#[test]
fn resolve_is_deterministic() {
    let speeds = [
        CanSpeed::Kbps5,
        CanSpeed::Kbps10,
        CanSpeed::Kbps20,
        CanSpeed::Kbps50,
        CanSpeed::Kbps100,
        CanSpeed::Kbps125,
        CanSpeed::Kbps250,
        CanSpeed::Kbps500,
        CanSpeed::Kbps1000,
    ];
    for osc in [McpSpeed::MHz8, McpSpeed::MHz16] {
        for speed in speeds {
            let first = resolve::<u8>(osc, speed);
            let second = resolve::<u8>(osc, speed);
            assert_eq!(first, second);
        }
    }
}

#[test]
fn resolve_rejects_unsupported_combination() {
    assert_eq!(
        resolve::<u8>(McpSpeed::MHz8, CanSpeed::Kbps1000),
        Err(Error::InvalidConfiguration(CanSpeed::Kbps1000, McpSpeed::MHz8))
    );
}
