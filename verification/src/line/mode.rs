use vstd::prelude::*;

verus! {

/// How an automapper should parse a line.
#[derive(Copy, Clone, Debug, PartialEq, Eq, Structural)]
pub enum ParseAs {
    /// The line is the name of a room.
    RoomName,
    /// The line is the description of a room.
    RoomDesc,
    /// The line lists the exits of a room.
    RoomExit,
}

/// Mode defined by a line tag.
///
/// See MXP specification: MXP Line Tags.
#[derive(Copy, Clone, Debug, Default, PartialEq, Eq, Structural)]
pub struct Mode(pub u8);

/// `OPEN` mode, or a user-defined line tag: only MXP commands in the OPEN category are allowed.
pub open spec fn mode_is_open(m: u8) -> bool {
    m == 0 || m == 5 || (20 <= m && m <= 99)
}

/// `LOCKED` or `PERM_LOCKED`: tags are not parsed.
pub open spec fn mode_is_locked(m: u8) -> bool {
    m == 2 || m == 7
}

/// The modes reserved for automappers.
pub open spec fn mode_is_automapping(m: u8) -> bool {
    10 <= m <= 19
}

/// The user-defined line tags.
pub open spec fn mode_is_user_defined(m: u8) -> bool {
    20 <= m <= 99
}

/// How an automapper parses a line of a mode.
pub open spec fn mode_parse_as(m: u8) -> Option<ParseAs> {
    if m == 10 {
        Some(ParseAs::RoomName)
    } else if m == 11 {
        Some(ParseAs::RoomDesc)
    } else if m == 12 {
        Some(ParseAs::RoomExit)
    } else {
        None
    }
}

impl Mode {
    /// Only MXP commands in the OPEN category are allowed. When a newline is received from the
    /// MUD, the mode reverts back to the default mode. This mode starts as the default mode.
    pub fn open() -> (r: Mode)
        ensures
            r.0 == 0,
    {
        Mode(0)
    }
    /// All tags and commands in MXP are allowed within the line. When a newline is received from
    /// the MUD, the mode reverts back to the default mode.
    pub fn secure() -> (r: Mode)
        ensures
            r.0 == 1,
    {
        Mode(1)
    }
    /// No MXP or HTML commands are allowed in the line. The line is not parsed for any tags at
    /// all. When a newline is received from the MUD, the mode reverts back to the default mode.
    pub fn locked() -> (r: Mode)
        ensures
            r.0 == 2,
    {
        Mode(2)
    }
    /// Close all open tags. Set active mode and default mode to `OPEN`. Set text color and
    /// properties to default.
    pub fn reset() -> (r: Mode)
        ensures
            r.0 == 3,
    {
        Mode(3)
    }
    /// Set `SECURE` mode for the next tag only. Must be immediately followed by a `'<'`
    /// character to start a tag.
    pub fn secure_once() -> (r: Mode)
        ensures
            r.0 == 4,
    {
        Mode(4)
    }
    /// Set `OPEN` mode. Mode remains in effect until changed. `OPEN` mode becomes the new default
    /// mode.
    pub fn perm_open() -> (r: Mode)
        ensures
            r.0 == 5,
    {
        Mode(5)
    }
    /// Set `SECURE` mode. Mode remains in effect until changed. `SECURE` mode becomes the new
    /// default mode.
    pub fn perm_secure() -> (r: Mode)
        ensures
            r.0 == 6,
    {
        Mode(6)
    }
    /// Set `LOCKED` mode. Mode remains in effect until changed. `LOCKED` mode becomes the new
    /// default mode.
    pub fn perm_locked() -> (r: Mode)
        ensures
            r.0 == 7,
    {
        Mode(7)
    }
    /// The line is parsed as the name of a room.
    pub fn room_name() -> (r: Mode)
        ensures
            r.0 == 10,
    {
        Mode(10)
    }
    /// The line is parsed as the description of a room.
    pub fn room_desc() -> (r: Mode)
        ensures
            r.0 == 11,
    {
        Mode(11)
    }
    /// The line is parsed as the exits of a room.
    pub fn room_exits() -> (r: Mode)
        ensures
            r.0 == 12,
    {
        Mode(12)
    }
    /// This text is sent from the MUD at the beginning of a session to welcome the user to the
    /// MUD.
    pub fn welcome_text() -> (r: Mode)
        ensures
            r.0 == 19,
    {
        Mode(19)
    }
    /// Minimum value of a user-defined line mode.
    pub fn user_defined_min() -> (r: Mode)
        ensures
            r.0 == 20,
    {
        Mode(20)
    }
    /// Maximum value of a user-defined line mode.
    pub fn user_defined_max() -> (r: Mode)
        ensures
            r.0 == 99,
    {
        Mode(99)
    }

    /// When this mode is active, only MXP commands in the OPEN category are allowed: `OPEN`,
    /// `PERM_OPEN` and the user-defined line tags.
    pub fn is_open(self) -> (r: bool)
        ensures
            r == mode_is_open(self.0),
    {
        self.0 == 0 || self.0 == 5 || (20 <= self.0 && self.0 <= 99)
    }

    /// When this mode is active, MXP tags should not be parsed: `LOCKED` and `PERM_LOCKED`.
    pub fn is_locked(self) -> (r: bool)
        ensures
            r == mode_is_locked(self.0),
    {
        self.0 == 2 || self.0 == 7
    }

    /// When this mode is active, the line is tagged for automappers: modes 10 to 19.
    pub fn is_automapping(self) -> (r: bool)
        ensures
            r == mode_is_automapping(self.0),
    {
        10 <= self.0 && self.0 <= 19
    }

    /// How the line should be parsed by an automapper. This only applies to `ROOM_NAME`,
    /// `ROOM_DESC` and `ROOM_EXITS`.
    pub fn parse_as(self) -> (r: Option<ParseAs>)
        ensures
            r == mode_parse_as(self.0),
    {
        if self.0 == 10 {
            Some(ParseAs::RoomName)
        } else if self.0 == 11 {
            Some(ParseAs::RoomDesc)
        } else if self.0 == 12 {
            Some(ParseAs::RoomExit)
        } else {
            None
        }
    }

    /// When this mode is active, the line is tagged for a MUD-specific purpose, defined by an
    /// earlier line tag definition. User-defined tags are between 20 and 99.
    pub fn is_user_defined(self) -> (r: bool)
        ensures
            r == mode_is_user_defined(self.0),
    {
        20 <= self.0 && self.0 <= 99
    }

    /// Converts a number to a mode, failing for numbers above 99.
    pub fn try_from_u64(value: u64) -> (r: Result<Mode, ModeRangeError>)
        ensures
            r is Ok <==> value <= 99,
            r matches Ok(m) ==> m.0 == value,
    {
        if value <= 99 {
            Ok(Mode(value as u8))
        } else {
            Err(ModeRangeError)
        }
    }

    /// Converts a signed number to a mode, failing for numbers outside 0 to 99.
    pub fn try_from_i64(value: i64) -> (r: Result<Mode, ModeRangeError>)
        ensures
            r is Ok <==> 0 <= value <= 99,
            r matches Ok(m) ==> m.0 == value,
    {
        if 0 <= value && value <= 99 {
            Ok(Mode(value as u8))
        } else {
            Err(ModeRangeError)
        }
    }
}

/// The error type returned when a checked conversion from an integral type to [`Mode`] fails.
#[derive(Copy, Clone, Debug, PartialEq, Eq, Structural)]
pub struct ModeRangeError;

impl ModeRangeError {
    /// The message the error displays.
    pub fn message(&self) -> (r: &'static str)
        ensures
            r@ == "MXP mode must be between 0 and 99"@,
    {
        "MXP mode must be between 0 and 99"
    }
}

} // verus!
