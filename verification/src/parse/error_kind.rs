use vstd::prelude::*;


verus! {

/// Type associated with an [`Error`].
#[derive(Copy, Clone, Debug, PartialEq, Eq, Structural)]
pub enum ErrorKind {
    /// Valid entity names must start with an alphabetical letter and contain only alphanumeric characters, `_`, `-`, and `.`. Example: `&*;`
    InvalidEntityName,
    /// Entity string cannot be parsed to a positive decimal or hexadecimal integer. Example: `&#1x0;`
    InvalidEntityNumber,
    /// Entity is not terminated by a semicolon. Example: `<!ENTITY foo &quot>`
    NoClosingSemicolon,
    /// Entity is not recognized as either a global entity or a custom entity. Example: `&foo;`
    UnknownEntity,
    /// Received an element with no content. Example: `<>`
    EmptyElement,
    /// Received an element missing the rest of its content. Example: `<!>`, `<!ATTLIST>`
    IncompleteElement,
    /// Server sent a SECURE element, but the current line mode is OPEN.
    UnsecuredElement,
    /// Element names must start with an alphabetical letter and contain only alphanumeric characters, `_`, `-`, and `.`. Example: `<2345>`
    InvalidElementName,
    /// Element is not recognized as either a standard (atomic) tag or a custom element. Example: `<foo>`
    UnknownElement,
    /// Received a closing tag with arguments. Example: `</send bar>`
    ArgumentsToClosingTag,
    /// An unclosed secure tag stood in front of an unclosed OPEN tag when closing OPEN tags.
    OpenTagBlockedBySecureTag,
    /// While the line mode was OPEN, attempted to close a tag from a line that was not OPEN.
    TagOpenedInSecureMode,
    /// Example: `<i></i></bold>`
    UnmatchedCloseTag,
    /// Received something other than a '<' after setting SECURE_ONCE mode.
    TextAfterSecureOnce,
    /// Definition would overwrite a global XML entity. Example: `<!ENTITY lt lessthan>`
    CannotRedefineGlobalEntity,
    /// Definition tag does not begin with a recognized prefix. Example: `<!FOO ...>`
    InvalidDefinition,
    /// Tag definition declares a line outside the range of user-defined line tags (20..=99). Example: `<!TAG 3>`
    IllegalLineTag,
    /// ATTLIST adds attributes to a custom element that was never defined. Example: `<!ATTLIST foo>`
    UnknownElementInAttlist,
    /// Received a definition while the line was in OPEN mode.
    UnsecuredDefinition,
    /// Element definition contains a closing tag. Example: `<!ELEMENT foo '</bold>'>`
    CloseTagInDefinition,
    /// Element definition contains a nested element definition.
    DefinitionInDefinition,
    /// Element definition contains an empty element.
    EmptyElementInDefinition,
    /// Element definition defines a line tag outside the range of user-defined line tags (20..=99).
    IllegalLineTagInDefinition,
    /// Element definition contains content not surrounded by tag brackets. Example: `<!ELEMENT foo 'bold'>`
    NoTagInDefinition,
    /// Element definition contains an unrecognized element. Example: `<!ELEMENT foo '<bar>'>`
    UnknownElementInDefinition,
    /// Element definition contains a superfluous opening tag bracket. Example: `<!ELEMENT foo '<<bold>'>`
    UnexpectedSymbolInDefinition,
    /// Element definition contains an element with an opening bracket but no closing bracket.
    UnterminatedElementInDefinition,
    /// Element definition contains an unterminated quote.
    UnterminatedQuoteInDefinition,
    /// Named attribute is not followed by a text value. Example: `<font color=>`
    EmptyArgument,
    /// An element does not specify values for mandatory arguments. Example: `<a>`
    MissingArguments,
    /// Argument names must start with an alphabetical letter and contain only alphanumeric characters, `_`, `-`, and `.`. Example: `<color 123=...>`
    InvalidArgumentName,
    /// Numeric attribute cannot be parsed to an integer. Example: `12d4`
    InvalidNumber,
    /// Tag contents specify an attribute that does not belong to the element. Example: `<color octopus=green>`
    UnexpectedArgument,
    /// Attributes specified an unrecognized color. Example: `<COLOR fore=octarine>`
    UnknownColor,
    /// Bytes are not valid UTF-8.
    InvalidUtf8,
    /// Received a newline without terminating a comment. Example: `<!-- ... \n`
    UnterminatedComment,
    /// Received a newline without terminating an element. Example: `< ... \n`
    UnterminatedElement,
    /// Received a newline without terminating an entity. Example: `& ... \n`
    UnterminatedEntity,
    /// Received a newline without terminating a quote. Example: `< ' ... \n`
    UnterminatedQuote,
    /// Received `=` without an argument name before it. Example: `<color =red>`
    MissingArgumentName,
    /// A required argument is missing.
    IncompleteArguments,
}

/// The message text of an error kind.
pub open spec fn error_kind_message(kind: ErrorKind) -> Seq<char> {
    match kind {
        ErrorKind::InvalidEntityName => "invalid name for entity"@,
        ErrorKind::InvalidEntityNumber => "invalid entity number"@,
        ErrorKind::NoClosingSemicolon => "entity missing semicolon"@,
        ErrorKind::UnknownEntity => "unrecognized entity"@,
        ErrorKind::EmptyElement => "received empty element"@,
        ErrorKind::IncompleteElement => "incomplete element"@,
        ErrorKind::UnsecuredElement => "received secure element in OPEN mode"@,
        ErrorKind::InvalidElementName => "invalid name for element"@,
        ErrorKind::UnknownElement => "unrecognized element"@,
        ErrorKind::ArgumentsToClosingTag => "arguments inside closing tag"@,
        ErrorKind::OpenTagBlockedBySecureTag => "OPEN tag blocked from closing by SECURE tag"@,
        ErrorKind::TagOpenedInSecureMode => "received closing tag in OPEN mode for element opened in SECURE mode"@,
        ErrorKind::UnmatchedCloseTag => "received closing tag without matching opening tag"@,
        ErrorKind::TextAfterSecureOnce => "received unexpected symbol after setting SECURE_ONCE mode"@,
        ErrorKind::CannotRedefineGlobalEntity => "cannot redefine global entity"@,
        ErrorKind::InvalidDefinition => "invalid definition type"@,
        ErrorKind::IllegalLineTag => "mode out of bounds for user-defined line tags"@,
        ErrorKind::UnknownElementInAttlist => "unrecognized element in attribute list"@,
        ErrorKind::UnsecuredDefinition => "received definition in OPEN mode"@,
        ErrorKind::CloseTagInDefinition => "closing tag inside element definition"@,
        ErrorKind::DefinitionInDefinition => "definition inside element definition"@,
        ErrorKind::EmptyElementInDefinition => "empty element in element definition"@,
        ErrorKind::IllegalLineTagInDefinition => "mode in element definition out of bounds for user-defined line tags"@,
        ErrorKind::NoTagInDefinition => "element definition without tags"@,
        ErrorKind::UnknownElementInDefinition => "unrecognized element in element definition"@,
        ErrorKind::UnexpectedSymbolInDefinition => "unexpected '<' inside element definition"@,
        ErrorKind::UnterminatedElementInDefinition => "unterminated element in element definition"@,
        ErrorKind::UnterminatedQuoteInDefinition => "unterminated quote in element definition"@,
        ErrorKind::EmptyArgument => "empty argument"@,
        ErrorKind::MissingArguments => "missing arguments for element"@,
        ErrorKind::InvalidArgumentName => "invalid name for argument"@,
        ErrorKind::InvalidNumber => "invalid number"@,
        ErrorKind::UnexpectedArgument => "found unexpected argument"@,
        ErrorKind::UnknownColor => "unrecognized color"@,
        ErrorKind::InvalidUtf8 => "invalid UTF-8"@,
        ErrorKind::UnterminatedComment => "reached end of line without terminating comment"@,
        ErrorKind::UnterminatedElement => "reached end of line without terminating element"@,
        ErrorKind::UnterminatedEntity => "reached end of line without terminating entity"@,
        ErrorKind::UnterminatedQuote => "reached end of line without terminating quote"@,
        ErrorKind::MissingArgumentName => "missing argument name"@,
        ErrorKind::IncompleteArguments => "missing required argument"@,
    }
}

impl ErrorKind {
    /// The human-readable message of this error kind.
    pub fn message(self) -> (r: &'static str)
        ensures
            r@ == error_kind_message(self),
    {
        match self {
            ErrorKind::InvalidEntityName => "invalid name for entity",
            ErrorKind::InvalidEntityNumber => "invalid entity number",
            ErrorKind::NoClosingSemicolon => "entity missing semicolon",
            ErrorKind::UnknownEntity => "unrecognized entity",
            ErrorKind::EmptyElement => "received empty element",
            ErrorKind::IncompleteElement => "incomplete element",
            ErrorKind::UnsecuredElement => "received secure element in OPEN mode",
            ErrorKind::InvalidElementName => "invalid name for element",
            ErrorKind::UnknownElement => "unrecognized element",
            ErrorKind::ArgumentsToClosingTag => "arguments inside closing tag",
            ErrorKind::OpenTagBlockedBySecureTag => "OPEN tag blocked from closing by SECURE tag",
            ErrorKind::TagOpenedInSecureMode => "received closing tag in OPEN mode for element opened in SECURE mode",
            ErrorKind::UnmatchedCloseTag => "received closing tag without matching opening tag",
            ErrorKind::TextAfterSecureOnce => "received unexpected symbol after setting SECURE_ONCE mode",
            ErrorKind::CannotRedefineGlobalEntity => "cannot redefine global entity",
            ErrorKind::InvalidDefinition => "invalid definition type",
            ErrorKind::IllegalLineTag => "mode out of bounds for user-defined line tags",
            ErrorKind::UnknownElementInAttlist => "unrecognized element in attribute list",
            ErrorKind::UnsecuredDefinition => "received definition in OPEN mode",
            ErrorKind::CloseTagInDefinition => "closing tag inside element definition",
            ErrorKind::DefinitionInDefinition => "definition inside element definition",
            ErrorKind::EmptyElementInDefinition => "empty element in element definition",
            ErrorKind::IllegalLineTagInDefinition => "mode in element definition out of bounds for user-defined line tags",
            ErrorKind::NoTagInDefinition => "element definition without tags",
            ErrorKind::UnknownElementInDefinition => "unrecognized element in element definition",
            ErrorKind::UnexpectedSymbolInDefinition => "unexpected '<' inside element definition",
            ErrorKind::UnterminatedElementInDefinition => "unterminated element in element definition",
            ErrorKind::UnterminatedQuoteInDefinition => "unterminated quote in element definition",
            ErrorKind::EmptyArgument => "empty argument",
            ErrorKind::MissingArguments => "missing arguments for element",
            ErrorKind::InvalidArgumentName => "invalid name for argument",
            ErrorKind::InvalidNumber => "invalid number",
            ErrorKind::UnexpectedArgument => "found unexpected argument",
            ErrorKind::UnknownColor => "unrecognized color",
            ErrorKind::InvalidUtf8 => "invalid UTF-8",
            ErrorKind::UnterminatedComment => "reached end of line without terminating comment",
            ErrorKind::UnterminatedElement => "reached end of line without terminating element",
            ErrorKind::UnterminatedEntity => "reached end of line without terminating entity",
            ErrorKind::UnterminatedQuote => "reached end of line without terminating quote",
            ErrorKind::MissingArgumentName => "missing argument name",
            ErrorKind::IncompleteArguments => "missing required argument",
        }
    }
}

} // verus!
