use vstd::prelude::*;

use super::error_kind::{error_kind_message, ErrorKind};
use crate::text::{push_char, push_str};

verus! {

/// Error caused by attempting to parse malformed MXP data from the server.
#[derive(Clone, Debug, PartialEq, Eq)]
pub struct Error {
    kind: ErrorKind,
    target: String,
}

impl View for Error {
    type V = (ErrorKind, Seq<char>);

    open spec fn view(&self) -> (ErrorKind, Seq<char>) {
        (self.spec_kind(), self.spec_target())
    }
}

/// The text an error displays: the kind's message, followed by the quoted target when the target
/// is not empty.
pub open spec fn error_display(kind: ErrorKind, target: Seq<char>) -> Seq<char> {
    if target.len() == 0 {
        error_kind_message(kind)
    } else {
        error_kind_message(kind) + ": \""@ + target + "\""@
    }
}

impl Error {
    /// Kind of the error.
    pub closed spec fn spec_kind(&self) -> ErrorKind {
        self.kind
    }

    /// Text that the error is about.
    pub closed spec fn spec_target(&self) -> Seq<char> {
        self.target@
    }

    /// Constructs an error of the specified kind from a target being parsed.
    pub fn new(target: &str, error: ErrorKind) -> (r: Self)
        ensures
            r@ == (error, target@),
    {
        Error { kind: error, target: target.to_owned() }
    }

    /// Constructs an error of the specified kind, taking ownership of the target.
    pub fn from_string(target: String, error: ErrorKind) -> (r: Self)
        ensures
            r@ == (error, target@),
    {
        Error { kind: error, target }
    }

    /// Constructs an error whose target is `target` wrapped in tag brackets.
    pub fn braced(target: &str, error: ErrorKind) -> (r: Self)
        ensures
            r@ == (error, seq!['<'] + target@ + seq!['>']),
    {
        let mut s = String::new();
        push_char(&mut s, '<');
        push_str(&mut s, target);
        push_char(&mut s, '>');
        Error { kind: error, target: s }
    }

    /// Returns the kind of error.
    pub fn kind(&self) -> (r: ErrorKind)
        ensures
            r == self@.0,
    {
        self.kind
    }

    /// Returns the text that the error is about.
    pub fn target(&self) -> (r: &str)
        ensures
            r@ == self@.1,
    {
        self.target.as_str()
    }

    /// Appends additional context to the error's target.
    pub fn with_context(self, context: &str) -> (r: Self)
        ensures
            r@ == (self@.0, self@.1 + context@),
    {
        let mut e = self;
        push_str(&mut e.target, context);
        e
    }

    /// The displayed form of the error.
    pub fn to_message(&self) -> (r: String)
        ensures
            r@ == error_display(self@.0, self@.1),
    {
        let mut s = String::new();
        push_str(&mut s, self.kind.message());
        if self.target.as_str().unicode_len() != 0 {
            push_str(&mut s, ": \"");
            push_str(&mut s, self.target.as_str());
            push_char(&mut s, '"');
            proof {
                reveal_strlit(": \"");
                reveal_strlit("\"");
            }
            assert(s@ =~= error_display(self@.0, self@.1));
        }
        s
    }
}

/// Error caused by attempting to parse a string that did not match any variant of a string-like
/// type.
#[derive(Clone, Debug, PartialEq, Eq)]
pub struct UnrecognizedVariant {
    input: String,
}

impl UnrecognizedVariant {
    /// Constructs the error for an unrecognized input.
    pub fn new(input: &str) -> (r: Self)
        ensures
            r.spec_target() == input@,
    {
        UnrecognizedVariant { input: input.to_owned() }
    }

    /// The input that was not recognized.
    pub closed spec fn spec_target(&self) -> Seq<char> {
        self.input@
    }

    /// The input that was not recognized.
    pub fn target(&self) -> (r: &str)
        ensures
            r@ == self.spec_target(),
    {
        self.input.as_str()
    }

    /// Converts into an [`Error`] of kind [`ErrorKind::UnexpectedArgument`].
    pub fn into_error(self) -> (r: Error)
        ensures
            r@ == (ErrorKind::UnexpectedArgument, self.spec_target()),
    {
        Error { kind: ErrorKind::UnexpectedArgument, target: self.input }
    }
}

/// Error returned by parsing a single element from a complete tag string.
#[derive(Clone, Debug, PartialEq, Eq)]
pub enum FromStrError {
    /// The tag could not be parsed.
    SyntaxError(Error),
    /// The tag was valid, but not the tag that was asked for.
    UnexpectedTag(String),
}

/// Spec-level view of a [`FromStrError`].
pub enum FromStrErrorView {
    /// The tag could not be parsed: the kind of error and its target.
    SyntaxError(ErrorKind, Seq<char>),
    /// The tag was valid, but not the tag that was asked for.
    UnexpectedTag(Seq<char>),
}

impl View for FromStrError {
    type V = FromStrErrorView;

    open spec fn view(&self) -> FromStrErrorView {
        match self {
            FromStrError::SyntaxError(e) => FromStrErrorView::SyntaxError(e@.0, e@.1),
            FromStrError::UnexpectedTag(t) => FromStrErrorView::UnexpectedTag(t@),
        }
    }
}

/// A syntax error, as an error of reading a single element.
impl From<Error> for FromStrError {
    fn from(value: Error) -> (r: Self) {
        FromStrError::SyntaxError(value)
    }
}

impl vstd::std_specs::convert::FromSpecImpl<Error> for FromStrError {
    open spec fn obeys_from_spec() -> bool {
        true
    }

    open spec fn from_spec(v: Error) -> Self {
        FromStrError::SyntaxError(v)
    }
}

impl FromStrError {
    /// The displayed form of the error.
    pub fn to_message(&self) -> (r: String)
        ensures
            r@ == match self@ {
                FromStrErrorView::SyntaxError(k, t) => "syntax error: "@ + error_display(k, t),
                FromStrErrorView::UnexpectedTag(t) => "unexpected tag: <"@ + t + ">"@,
            },
    {
        let mut s = String::new();
        match self {
            FromStrError::SyntaxError(e) => {
                push_str(&mut s, "syntax error: ");
                let m = e.to_message();
                push_str(&mut s, m.as_str());
            },
            FromStrError::UnexpectedTag(t) => {
                push_str(&mut s, "unexpected tag: <");
                push_str(&mut s, t.as_str());
                push_char(&mut s, '>');
                proof {
                    reveal_strlit(">");
                    assert(">"@ =~= seq!['>']);
                }
            },
        }
        s
    }
}

} // verus!
