use vstd::prelude::*;

verus! {

/// A line mode, as the older `<ESC>[#z` handling classifies it.
#[derive(Copy, Clone, Debug, Default, PartialEq, Eq, Hash, Structural)]
pub struct Mode(pub u8);

impl Mode {
    /// `OPEN` or `PERM_OPEN`: only MXP commands in the open category are allowed.
    pub fn is_open(self) -> (r: bool)
        ensures
            r == (self.0 == 0 || self.0 == 5),
    {
        self.0 == 0 || self.0 == 5
    }

    /// `SECURE`, `SECURE_ONCE` or `PERM_SECURE`: all tags and commands are allowed.
    pub fn is_secure(self) -> (r: bool)
        ensures
            r == (self.0 == 1 || self.0 == 4 || self.0 == 6),
    {
        self.0 == 1 || self.0 == 4 || self.0 == 6
    }

    /// A mode in which MXP is parsed: open or secure.
    pub fn is_mxp(self) -> (r: bool)
        ensures
            r == (self.0 == 0 || self.0 == 5 || self.0 == 1 || self.0 == 4 || self.0 == 6),
    {
        self.is_open() || self.is_secure()
    }

    /// A user-defined line tag, 20 to 99.
    pub fn is_user_defined(self) -> (r: bool)
        ensures
            r == (20 <= self.0 <= 99),
    {
        self.0 >= 20 && self.0 <= 99
    }
}

} // verus!
