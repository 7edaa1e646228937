use vstd::prelude::*;

verus! {

/// Enquiry
pub const ENQ: u8 = 5u8;
/// Ring the terminal bell
pub const BEL: u8 = 7u8;
/// Backspace
pub const BS: u8 = 8u8;
/// Horizontal tab
pub const HT: u8 = 9u8;
/// Linefeed
pub const LF: u8 = 10u8;
/// Vertical tab
pub const VT: u8 = 11u8;
/// Form feed
pub const FF: u8 = 12u8;
/// Carriage return
pub const CR: u8 = 13u8;
/// Shift in
pub const SO: u8 = 14u8;
/// Shift out
pub const SI: u8 = 15u8;
/// Escape
pub const ESC: u8 = 27u8;
/// Delete character
pub const DEL: u8 = 127u8;

/// Device Control String
pub const ESC_DCS: u8 = 80u8;
/// Device Control String
pub const DCS: &'static str = "\x1BP";

/// Start of String
pub const ESC_SOS: u8 = 88u8;
/// Start of String
pub const SOS: &'static str = "\x1BX";

/// Control Sequence Introducer
pub const ESC_CSI: u8 = 91u8;
/// Control Sequence Introducer
pub const CSI: &'static str = "\x1B[";

/// String Terminator
pub const ESC_ST: u8 = 92u8;
/// String Terminator
pub const ST: &'static str = "\x1B\\";

/// Operating System Command
pub const ESC_OSC: u8 = 93u8;
/// Operating System Command
pub const OSC: &'static str = "\x1B]";

/// Privacy Message
pub const ESC_PM: u8 = 94u8;
/// Privacy Message
pub const PM: &'static str = "\x1B^";

/// Application Program Command
pub const ESC_APC: u8 = 95u8;
/// Application Program Command
pub const APC: &'static str = "\x1B_";

/// ANSI code RESET.
pub const RESET: u8 = 0u8;
/// ANSI code BOLD.
pub const BOLD: u8 = 1u8;
/// ANSI code FAINT.
pub const FAINT: u8 = 2u8;
/// ANSI code ITALIC.
pub const ITALIC: u8 = 3u8;
/// ANSI code UNDERLINE.
pub const UNDERLINE: u8 = 4u8;
/// ANSI code SLOW_BLINK.
pub const SLOW_BLINK: u8 = 5u8;
/// ANSI code RAPID_BLINK.
pub const RAPID_BLINK: u8 = 6u8;
/// ANSI code INVERSE.
pub const INVERSE: u8 = 7u8;
/// ANSI code CONCEAL.
pub const CONCEAL: u8 = 8u8;
/// ANSI code STRIKEOUT.
pub const STRIKEOUT: u8 = 9u8;

/// ANSI code PRIMARY_FONT.
pub const PRIMARY_FONT: u8 = 10u8;
/// ANSI code BLACKLETTER.
pub const BLACKLETTER: u8 = 20u8;

/// ANSI code DOUBLE_UNDERLINE.
pub const DOUBLE_UNDERLINE: u8 = 21u8;

/// Cancels [`BOLD`] and [`FAINT`].
pub const CANCEL_BOLD: u8 = 22u8;
/// Cancels [`ITALIC`] and [`BLACKLETTER`].
pub const CANCEL_ITALIC: u8 = 23u8;
/// Cancels [`UNDERLINE`].
pub const CANCEL_UNDERLINE: u8 = 24u8;
/// Cancels [`SLOW_BLINK`] and [`RAPID_BLINK`].
pub const CANCEL_BLINK: u8 = 25u8;
/// ANSI code PROPORTIONAL_SPACING.
pub const PROPORTIONAL_SPACING: u8 = 26u8;
/// Cancels [`INVERSE`].
pub const CANCEL_INVERSE: u8 = 27u8;
/// Cancels [`CONCEAL`].
pub const CANCEL_CONCEAL: u8 = 28u8;
/// Cancels [`STRIKEOUT`].
pub const CANCEL_STRIKEOUT: u8 = 29u8;

/// ANSI code FG_BLACK.
pub const FG_BLACK: u8 = 30u8;
/// ANSI code FG_RED.
pub const FG_RED: u8 = 31u8;
/// ANSI code FG_GREEN.
pub const FG_GREEN: u8 = 32u8;
/// ANSI code FG_YELLOW.
pub const FG_YELLOW: u8 = 33u8;
/// ANSI code FG_BLUE.
pub const FG_BLUE: u8 = 34u8;
/// ANSI code FG_MAGENTA.
pub const FG_MAGENTA: u8 = 35u8;
/// ANSI code FG_CYAN.
pub const FG_CYAN: u8 = 36u8;
/// ANSI code FG_WHITE.
pub const FG_WHITE: u8 = 37u8;
/// ANSI code FG_256_COLOR.
pub const FG_256_COLOR: u8 = 38u8;
/// ANSI code FG_DEFAULT.
pub const FG_DEFAULT: u8 = 39u8;

/// ANSI code BG_BLACK.
pub const BG_BLACK: u8 = 40u8;
/// ANSI code BG_RED.
pub const BG_RED: u8 = 41u8;
/// ANSI code BG_GREEN.
pub const BG_GREEN: u8 = 42u8;
/// ANSI code BG_YELLOW.
pub const BG_YELLOW: u8 = 43u8;
/// ANSI code BG_BLUE.
pub const BG_BLUE: u8 = 44u8;
/// ANSI code BG_MAGENTA.
pub const BG_MAGENTA: u8 = 45u8;
/// ANSI code BG_CYAN.
pub const BG_CYAN: u8 = 46u8;
/// ANSI code BG_WHITE.
pub const BG_WHITE: u8 = 47u8;
/// ANSI code BG_256_COLOR.
pub const BG_256_COLOR: u8 = 48u8;
/// ANSI code BG_DEFAULT.
pub const BG_DEFAULT: u8 = 49u8;

/// Cancels [`PROPORTIONAL_SPACING`].
pub const CANCEL_PROPORTIONAL_SPACING: u8 = 50u8;
/// ANSI code FRAMED.
pub const FRAMED: u8 = 51u8;
/// ANSI code ENCIRCLED.
pub const ENCIRCLED: u8 = 52u8;
/// ANSI code OVERLINED.
pub const OVERLINED: u8 = 53u8;
/// Cancels [`FRAMED`] and [`ENCIRCLED`].
pub const CANCEL_FRAMED: u8 = 54u8;
/// Cancels [`OVERLINED`].
pub const CANCEL_OVERLINED: u8 = 55u8;

/// ANSI code UNDERLINE_COLOR.
pub const UNDERLINE_COLOR: u8 = 58u8;
/// ANSI code UNDERLINE_COLOR_DEFAULT.
pub const UNDERLINE_COLOR_DEFAULT: u8 = 59u8;

/// ANSI code SUPERSCRIPT.
pub const SUPERSCRIPT: u8 = 73u8;
/// ANSI code SUBSCRIPT.
pub const SUBSCRIPT: u8 = 74u8;
/// Cancels [`SUPERSCRIPT`] and [`SUBSCRIPT`].
pub const CANCEL_POSITION: u8 = 75u8;

/// ANSI code BEGIN_XTERM_COLOR.
pub const BEGIN_XTERM_COLOR: u8 = 5u8;
/// ANSI code BEGIN_TRUECOLOR.
pub const BEGIN_TRUECOLOR: u8 = 2u8;

} // verus!
