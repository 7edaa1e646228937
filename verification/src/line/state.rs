use vstd::prelude::*;

use super::mode::{mode_is_automapping, mode_is_open, mode_is_user_defined, mode_parse_as, Mode, ParseAs};
use super::tag::{line_tag_view, LineTag};
use crate::parse::error::Error;
use crate::state::{line_tag_spec, State};
use crate::parse::error_kind::ErrorKind;
use crate::text::push_char;

verus! {

/// The modes that stand for a change of mode rather than a line mode: `RESET` and the `PERM_`
/// modes. A mode state never holds one.
pub open spec fn is_transition(m: u8) -> bool {
    m == 3 || m == 5 || m == 6 || m == 7
}

/// A mode state: the active mode, the default mode and the mode before `SECURE_ONCE`.
pub struct ModeView {
    /// The active mode.
    pub active: u8,
    /// The mode to revert to at a newline.
    pub default: u8,
    /// The mode that `SECURE_ONCE` reverts to.
    pub previous: u8,
}

/// `OPEN`, or a user-defined line tag.
pub open spec fn state_is_open(m: u8) -> bool {
    m == 0 || (20 <= m && m <= 99)
}

/// The state after a new line mode is applied.
pub open spec fn set_state(st: ModeView, mode: u8) -> ModeView {
    if mode == 4 {
        ModeView { active: 4, default: st.default, previous: st.active }
    } else if mode == 5 || mode == 3 {
        ModeView { active: 0, default: 0, previous: st.previous }
    } else if mode == 6 {
        ModeView { active: 1, default: 1, previous: st.previous }
    } else if mode == 7 {
        ModeView { active: 2, default: 2, previous: st.previous }
    } else {
        ModeView { active: mode, default: st.default, previous: st.previous }
    }
}

/// Whether applying `mode` means that all tags since the most recent OPEN tag should be closed:
/// the active mode is open and the new one is not.
pub open spec fn set_closes(st: ModeView, mode: u8) -> bool {
    state_is_open(st.active) && !mode_is_open(mode)
}

/// The states that a mode state can be in.
pub open spec fn valid_state(st: ModeView) -> bool {
    &&& st.default <= 2
    &&& !is_transition(st.active)
    &&& !is_transition(st.previous)
}

/// State tracker for [`Mode`].
///
/// See MXP specification: MXP Line Tags.
#[derive(Copy, Clone, Debug, PartialEq, Eq, Structural)]
pub struct ModeState {
    active_mode: Mode,
    default_mode: Mode,
    previous_mode: Mode,
}

impl View for ModeState {
    type V = ModeView;

    closed spec fn view(&self) -> ModeView {
        ModeView {
            active: self.active_mode.0,
            default: self.default_mode.0,
            previous: self.previous_mode.0,
        }
    }
}

impl ModeState {
    #[verifier::type_invariant]
    spec fn wf(self) -> bool {
        valid_state(self@)
    }

    /// Constructs a new `ModeState` in `OPEN` mode.
    pub fn new() -> (r: Self)
        ensures
            r@ == (ModeView { active: 0, default: 0, previous: 0 }),
    {
        ModeState { active_mode: Mode(0), default_mode: Mode(0), previous_mode: Mode(0) }
    }

    /// Gets the active mode. It also tells a caller that the state is valid, so that the laws
    /// on mode states apply to it.
    pub fn get(&self) -> (r: Mode)
        ensures
            r.0 == self@.active,
            valid_state(self@),
    {
        proof {
            use_type_invariant(self);
        }
        self.active_mode
    }

    /// Retrieves the element associated with a line tag for the active mode, if one exists.
    pub fn line_tag<'a>(&self, state: &'a State) -> (r: Option<LineTag<'a>>)
        ensures
            match r {
                Some(t) => line_tag_spec(state@, self@.active) == Some(line_tag_view(t)),
                None => line_tag_spec(state@, self@.active) is None,
            },
    {
        state.get_line_tag(self.get())
    }

    /// Makes `mode` both the active and the default mode.
    fn lock(&mut self, mode: Mode)
        requires
            mode.0 == 0 || mode.0 == 1 || mode.0 == 2,
        ensures
            final(self)@ == (ModeView { active: mode.0, default: mode.0, ..old(self)@ }),
    {
        proof {
            use_type_invariant(&*self);
        }
        self.active_mode = mode;
        self.default_mode = mode;
    }

    /// Applies a new line mode. Returns `true` if the change in mode means all tags since the
    /// most recent OPEN tag should be closed.
    ///
    /// If the mode is set to `SECURE_ONCE`, the client must immediately process an incoming
    /// element and call [`ModeState::use_secure`] for it.
    pub fn set(&mut self, mode: Mode) -> (r: bool)
        ensures
            final(self)@ == set_state(old(self)@, mode.0),
            r == set_closes(old(self)@, mode.0),
            valid_state(final(self)@),
    {
        proof {
            use_type_invariant(&*self);
        }
        let closing = self.is_open() && !mode.is_open();
        if mode.0 == 4 {
            self.previous_mode = self.active_mode;
            self.active_mode = mode;
        } else if mode.0 == 5 || mode.0 == 3 {
            self.lock(Mode(0));
        } else if mode.0 == 6 {
            self.lock(Mode(1));
        } else if mode.0 == 7 {
            self.lock(Mode(2));
        } else {
            self.active_mode = mode;
        }
        closing
    }

    /// Reverts to the default line mode. This should be called whenever the client receives a
    /// newline.
    pub fn revert(&mut self)
        ensures
            final(self)@ == set_state(old(self)@, old(self)@.default),
            valid_state(final(self)@),
    {
        let default = self.default_mode;
        self.set(default);
    }

    /// Returns `true` if the active mode is SECURE. Additionally, if the active mode is
    /// `SECURE_ONCE`, the active mode reverts to the previous mode.
    pub fn use_secure(&mut self) -> (r: bool)
        ensures
            old(self)@.active == 4 ==> r && final(self)@ == (ModeView {
                active: old(self)@.previous,
                ..old(self)@
            }),
            old(self)@.active != 4 ==> r == !state_is_open(old(self)@.active) && final(self)@ == old(
                self,
            )@,
    {
        proof {
            use_type_invariant(&*self);
        }
        if self.is_secure_once() {
            self.active_mode = self.previous_mode;
            return true;
        }
        !self.is_open()
    }

    /// If the active mode is `SECURE_ONCE` and the character is not `'<'`, unsets the mode and
    /// returns an error.
    pub fn validate_next_character(&mut self, c: u8) -> (r: Result<(), Error>)
        ensures
            (c == '<' as u8 || old(self)@.active != 4) ==> r is Ok && final(self)@ == old(self)@,
            !(c == '<' as u8 || old(self)@.active != 4) ==> {
                &&& r matches Err(e) && e@ == (ErrorKind::TextAfterSecureOnce, seq![c as char])
                &&& final(self)@ == (ModeView { active: old(self)@.previous, ..old(self)@ })
            },
    {
        proof {
            use_type_invariant(&*self);
        }
        if c == 60u8 || !self.is_secure_once() {
            return Ok(());
        }
        self.active_mode = self.previous_mode;
        let mut target = String::new();
        push_char(&mut target, c as char);
        assert(target@ =~= seq![c as char]);
        Err(Error::from_string(target, ErrorKind::TextAfterSecureOnce))
    }

    /// Returns `true` if the active mode is `SECURE_ONCE`. If so, the server must send `'<'` as
    /// its next character to start a tag.
    pub fn is_secure_once(&self) -> (r: bool)
        ensures
            r == (self@.active == 4),
    {
        self.active_mode.0 == 4
    }

    /// Returns `true` if the active mode is `OPEN` or a user-defined line tag.
    pub fn is_open(&self) -> (r: bool)
        ensures
            r == state_is_open(self@.active),
    {
        self.active_mode.0 == 0 || (20 <= self.active_mode.0 && self.active_mode.0 <= 99)
    }

    /// Returns `true` if the active mode is `LOCKED`.
    pub fn is_locked(&self) -> (r: bool)
        ensures
            r == (self@.active == 2),
    {
        self.active_mode.0 == 2
    }

    /// Returns `true` if the active mode is reserved for automappers.
    pub fn is_automapping(&self) -> (r: bool)
        ensures
            r == mode_is_automapping(self@.active),
    {
        self.active_mode.is_automapping()
    }

    /// How the active line should be parsed by an automapper.
    pub fn parse_as(&self) -> (r: Option<ParseAs>)
        ensures
            r == mode_parse_as(self@.active),
    {
        self.active_mode.parse_as()
    }

    /// Returns `true` if the active mode is a user-defined line tag.
    pub fn is_user_defined(&self) -> (r: bool)
        ensures
            r == mode_is_user_defined(self@.active),
    {
        self.active_mode.is_user_defined()
    }
}

impl Default for ModeState {
    fn default() -> (r: Self)
        ensures
            r@ == (ModeView { active: 0, default: 0, previous: 0 }),
    {
        ModeState::new()
    }
}

/// Setting any mode other than `SECURE_ONCE`, `RESET` or a `PERM_` mode makes it the active
/// mode and leaves the default and the previous mode as they were; an automapper mode then
/// tells how to parse the line.
pub proof fn law_set_activates(st: ModeView, mode: u8)
    requires
        mode != 3 && mode != 4 && mode != 5 && mode != 6 && mode != 7,
    ensures
        set_state(st, mode) == (ModeView { active: mode, ..st }),
        mode == 10 ==> mode_parse_as(set_state(st, mode).active) == Some(ParseAs::RoomName),
        mode == 11 ==> mode_parse_as(set_state(st, mode).active) == Some(ParseAs::RoomDesc),
        mode == 12 ==> mode_parse_as(set_state(st, mode).active) == Some(ParseAs::RoomExit),
{
}

/// Every mode change keeps a valid state valid.
pub proof fn law_set_keeps_valid(st: ModeView, mode: u8)
    requires
        valid_state(st),
    ensures
        valid_state(set_state(st, mode)),
{
}

/// `SECURE_ONCE` makes exactly the next tag secure: right after it, using the secure mode
/// succeeds and restores the mode that was active before.
pub proof fn law_secure_once_restores(st: ModeView)
    requires
        valid_state(st),
    ensures
        set_state(st, 4).active == 4,
        set_state(st, 4).previous == st.active,
        set_state(st, 4).default == st.default,
{
}

/// A `PERM_` mode (or `RESET`) becomes the default: it is active at once, and after any later
/// mode change a newline reverts to it.
pub proof fn law_perm_mode_is_default(st: ModeView, perm: u8, other: u8)
    requires
        perm == 3 || perm == 5 || perm == 6 || perm == 7,
        other != 3 && other != 5 && other != 6 && other != 7,
    ensures
        ({
            let base: u8 = if perm == 6 {
                1
            } else if perm == 7 {
                2
            } else {
                0
            };
            let s1 = set_state(st, perm);
            let s2 = set_state(s1, other);
            &&& s1.active == base && s1.default == base
            &&& set_state(s2, s2.default).active == base
            &&& set_state(s2, s2.default).default == base
        }),
{
}

/// Reverting makes the default mode active and changes nothing else that a client sees.
pub proof fn law_revert_activates_default(st: ModeView)
    requires
        valid_state(st),
    ensures
        set_state(st, st.default).active == st.default,
        set_state(st, st.default).default == st.default,
        set_state(set_state(st, st.default), st.default) == set_state(st, st.default),
{
}

/// Only a change from an open mode to a mode that is not open closes tags; a change to an open
/// mode never does.
pub proof fn law_closing(st: ModeView, mode: u8)
    ensures
        set_closes(st, mode) ==> state_is_open(st.active),
        mode_is_open(mode) ==> !set_closes(st, mode),
{
}

} // verus!
