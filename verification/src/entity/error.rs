use vstd::prelude::*;

use crate::parse::validation::{utf8_lossy, valid_name};

verus! {

/// The kinds of error that the older MXP parser reports.
#[derive(Copy, Clone, Debug, PartialEq, Eq, Hash, Structural)]
pub enum Error {
    /// eg. < ... \n
    UnterminatedElement,
    /// eg. <!-- ... \n
    UnterminatedComment,
    /// eg. & ... \n
    UnterminatedEntity,
    /// eg. < ' ... \n
    UnterminatedQuote,
    /// eg. <>
    EmptyElement,
    /// eg. <!>
    ElementTooShort,
    /// eg. &*;
    InvalidEntityName,
    /// eg. <!ELEMENT ... > in open mode
    DefinitionWhenNotSecure,
    /// eg. < 2345 >  or </ 2345 >
    InvalidElementName,
    /// ie. not <!ELEMENT ...> or <!ENTITY ...>
    InvalidDefinition,
    /// cannot redefine inbuilt element
    CannotRedefineElement,
    /// no < in element definition, eg.
    NoTagInDefinition,
    /// <!ELEMENT foo 'bold' >  (should be '<bold>' )
    /// eg. <!ELEMENT foo '<<bold>' >
    UnexpectedDefinitionSymbol,
    /// eg. <!ELEMENT foo '<send "west>' >
    NoClosingDefinitionQuote,
    /// eg. <!ELEMENT foo '<bold' >
    NoClosingDefinitionTag,
    /// defining unknown tag, eg. <!ELEMENT foo '<bar>' >
    NoInbuiltDefinitionTag,
    /// eg. <!ELEMENT foo '<>' >
    NoDefinitionTag,
    /// variable name in FLAG does not meet MUSHclient rules
    BadVariableName,
    /// ATTLIST for undefined element name
    UnknownElementInAttlist,
    /// cannot redefine inbuilt entity
    CannotRedefineEntity,
    /// eg. <!ENTITY foo &quot >
    NoClosingSemicolon,
    /// eg. <!ENTITY foo 'bar' xxxx >
    UnexpectedEntityArguments,
    /// eg. <blah>
    UnknownElement,
    /// eg. <send> in open mode
    ElementWhenNotSecure,
    /// eg. <!ELEMENT foo '<send &bar>'>
    NoClosingSemicolonInArgument,
    /// closing tag we don't recognise
    ClosingUnknownTag,
    /// argument to COLOR or FONT not recognised color
    UnknownColor,
    /// eg. &#xxx;
    InvalidEntityNumber,
    /// eg. &#5000;
    DisallowedEntityNumber,
    /// eg. &foo;
    UnknownEntity,
    /// eg. <color 123=blue>  (123 is invalid)
    InvalidArgumentName,
    /// eg. <font color=>
    NoArgument,
    /// using Pueblo element in MXP mode
    PuebloOnly,
    /// using MXP element in Pueblo mode
    MxpOnly,
    /// Pueblo does not support <!ELEMENT> or <!ENTITY>
    DefinitionAttemptInPueblo,
    /// invalid argument to <support> tag
    InvalidSupportArgument,
    /// invalid argument to <option> tag
    InvalidOptionArgument,
    /// eg. <!ELEMENT foo '</bold>' >
    DefinitionCannotCloseElement,
    /// eg. <!ELEMENT foo '<!ELEMENT>' >
    DefinitionCannotDefineElement,
    /// cannot change option with <recommend_option>
    CannotChangeOption,
    /// option not in acceptable range
    OptionOutOfRange,
    /// cannot convert bytes into UTF-8
    MalformedBytes,
    /// eg. </send bar >
    ArgumentsToClosingTag,
    /// when closing an open tag secure tag blocks it
    OpenTagBlockedBySecureTag,
    /// eg. </bold> when no opening tag
    OpenTagNotThere,
    /// cannot close tag - it was opened in secure mode
    TagOpenedInSecureMode,
}

/// An error of the older MXP parser: a kind, and the text it is about.
#[derive(Clone, Debug, PartialEq, Eq, Hash)]
pub struct ParseError {
    target: String,
    error: Error,
}

impl ParseError {
    /// The text the error is about.
    pub closed spec fn spec_target(&self) -> Seq<char> {
        self.target@
    }

    /// The kind of the error.
    pub closed spec fn spec_error(&self) -> Error {
        self.error
    }

    /// An error about a text.
    pub fn new(target: &str, error: Error) -> (r: Self)
        ensures
            r.spec_target() == target@,
            r.spec_error() == error,
    {
        ParseError { target: target.to_owned(), error }
    }

    /// An error about bytes, read as UTF-8 with invalid sequences replaced by U+FFFD.
    pub fn from_bytes(target: &[u8], error: Error) -> (r: Self)
        ensures
            r.spec_target() == utf8_lossy(target@),
            r.spec_error() == error,
    {
        ParseError { target: crate::parse::validation::string_from_utf8_lossy(target), error }
    }

    /// The text the error is about.
    pub fn target(&self) -> (r: &str)
        ensures
            r@ == self.spec_target(),
    {
        self.target.as_str()
    }

    /// The kind of the error.
    pub fn error(&self) -> (r: Error)
        ensures
            r == self.spec_error(),
    {
        self.error
    }
}

/// Returns `true` if the target is valid as an MXP identifier: an ASCII letter followed by
/// ASCII letters, digits, `_`, `-` or `.`.
pub fn is_valid(target: &str) -> (r: bool)
    ensures
        r == valid_name(target@),
{
    crate::parse::validation::is_valid(target)
}

/// Succeeds if the target is valid as an MXP identifier; otherwise fails with an error of the
/// given kind about the target.
pub fn validate(target: &str, error: Error) -> (r: Result<(), ParseError>)
    ensures
        r is Ok <==> valid_name(target@),
        r matches Err(e) ==> e.spec_target() == target@ && e.spec_error() == error,
{
    if is_valid(target) {
        Ok(())
    } else {
        Err(ParseError::new(target, error))
    }
}

} // verus!
