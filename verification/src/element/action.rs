use vstd::prelude::*;

verus! {

/// The action that an atomic MXP tag performs.
#[derive(Copy, Clone, Debug, PartialEq, Eq, Hash, Structural)]
pub enum ActionType {
    /// eg. <send href="go west"> west
    Send,
    /// bold
    Bold,
    /// underline
    Underline,
    /// italic
    Italic,
    /// eg. <color fore=red back=blue>
    Color,
    /// version request
    Version,
    /// Font appearance
    Font,
    /// play sound
    Sound,
    /// play music
    Music,
    /// send username
    User,
    /// send password
    Password,
    /// causes a new connect to open
    Relocate,
    /// frame
    Frame,
    /// destination frame
    Dest,
    /// show image
    Image,
    /// sound/image filter
    Filter,
    /// Hyperlink (secure)
    Hyperlink,
    /// Hard Line break (secure)
    Br,
    /// Level 1 heading (secure)
    H1,
    /// Level 2 heading (secure)
    H2,
    /// Level 3 heading (secure)
    H3,
    /// Level 4 heading (secure)
    H4,
    /// Level 5 heading (secure)
    H5,
    /// Level 6 heading (secure)
    H6,
    /// Horizontal rule (secure)
    Hr,
    /// ignore next newline
    NoBr,
    /// Soft line break
    SBr,
    /// Paragraph break (secure)
    P,
    /// Strikethrough
    Strikeout,
    /// Client script (secure)
    Script,
    /// Small text
    Small,
    /// Non-proportional font
    Tt,
    /// Unordered list
    Ul,
    /// Ordered list
    Ol,
    /// List item
    Li,
    /// Sample text
    Samp,
    /// Centre text
    Center,
    /// Highlight text
    High,
    /// Set variable
    Var,
    /// AFK - away from keyboard time
    Afk,
    /// gauge
    Gauge,
    /// status
    Stat,
    /// expire
    Expire,
    /// close all open tags
    Reset,
    /// MXP command (eg. MXP OFF)
    Mxp,
    /// what commands we support
    Support,
    /// client options set
    SetOption,
    /// server sets option
    RecommendOption,
    /// Pueblo document body
    Body,
    /// Pueblo document head
    Head,
    /// Pueblo document root
    Html,
    /// Pueblo image
    Img,
    /// Pueblo preformatted text
    Pre,
    /// Pueblo document title
    Title,
    /// Pueblo page command
    XchPage,
    /// Pueblo pane command
    XchPane,
}

/// Heading levels.
#[derive(Copy, Clone, Debug, PartialEq, Eq, Hash, Structural)]
pub enum Heading {
    /// Level 1.
    H1,
    /// Level 2.
    H2,
    /// Level 3.
    H3,
    /// Level 4.
    H4,
    /// Level 5.
    H5,
    /// Level 6.
    H6,
}

/// The heading level of a heading action.
pub open spec fn heading_of(action: ActionType) -> Option<Heading> {
    match action {
        ActionType::H1 => Some(Heading::H1),
        ActionType::H2 => Some(Heading::H2),
        ActionType::H3 => Some(Heading::H3),
        ActionType::H4 => Some(Heading::H4),
        ActionType::H5 => Some(Heading::H5),
        ActionType::H6 => Some(Heading::H6),
        _ => None,
    }
}

impl Heading {
    /// The heading of a heading action, if it is one.
    pub fn from_action(action: ActionType) -> (r: Option<Heading>)
        ensures
            r == heading_of(action),
    {
        match action {
            ActionType::H1 => Some(Heading::H1),
            ActionType::H2 => Some(Heading::H2),
            ActionType::H3 => Some(Heading::H3),
            ActionType::H4 => Some(Heading::H4),
            ActionType::H5 => Some(Heading::H5),
            ActionType::H6 => Some(Heading::H6),
            _ => None,
        }
    }
}

} // verus!
