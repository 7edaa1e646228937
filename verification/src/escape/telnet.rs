use vstd::prelude::*;

verus! {

/// Escape byte.
pub const ESC: u8 = 0x1Bu8;
/// IAC WILL END-OF-RECORD (RFC 885).
pub const WILL_EOR: u8 = 0x19u8;
/// IAC END-OF-RECORD (RFC 885).
pub const EOR: u8 = 0xEFu8;
/// End of subnegotiation.
pub const SE: u8 = 0xF0u8;
/// No operation.
pub const NOP: u8 = 0xF1u8;
/// Data mark (RFC 854).
pub const DM: u8 = 0xF2u8;
/// Break.
pub const BRK: u8 = 0xF3u8;
/// Interrupt process.
pub const IP: u8 = 0xF4u8;
/// Abort output.
pub const AO: u8 = 0xF5u8;
/// Are you there.
pub const AYT: u8 = 0xF6u8;
/// Erase character.
pub const EC: u8 = 0xF7u8;
/// Erase line.
pub const EL: u8 = 0xF8u8;
/// Go ahead.
pub const GA: u8 = 0xF9u8;
/// Subnegotiation.
pub const SB: u8 = 0xFAu8;
/// WILL option code.
pub const WILL: u8 = 0xFBu8;
/// WON'T option code.
pub const WONT: u8 = 0xFCu8;
/// DO option code.
pub const DO: u8 = 0xFDu8;
/// DON'T option code.
pub const DONT: u8 = 0xFEu8;
/// Interpret as command.
pub const IAC: u8 = 0xFFu8;

/// Telnet negotiation `IAC DO code` when `supports` holds, otherwise `IAC DONT code`.
pub fn supports_do(code: u8, supports: bool) -> (r: [u8; 3])
    ensures
        r@ == seq![IAC, if supports { DO } else { DONT }, code],
{
    [IAC, if supports { DO } else { DONT }, code]
}

/// Telnet negotiation `IAC WILL code` when `supports` holds, otherwise `IAC WONT code`.
pub fn supports_will(code: u8, supports: bool) -> (r: [u8; 3])
    ensures
        r@ == seq![IAC, if supports { WILL } else { WONT }, code],
{
    [IAC, if supports { WILL } else { WONT }, code]
}

} // verus!
