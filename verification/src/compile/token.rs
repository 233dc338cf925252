//! Lexical tokens with attachments: the information computed during lexical analysis and
//! passed on to the parser.
use crate::compile::errors::LexicalError;
use crate::compile::location::Location;
use crate::compiler::location::Position;
use crate::compiler::number::Number;
use vstd::prelude::*;

verus! {

/// The kind of a lexical token.
#[derive(Clone, Copy, Debug, Eq, PartialEq, Structural)]
pub enum Kind {
    LeftParenthesis,
    RightParenthesis,
    ForwardSlash,
    Star,
    Percent,
    Equals,
    Plus,
    Minus,
    LessThan,
    GreaterThan,
    Caret,
    Tilde,
    LeftBrace,
    RightBrace,
    LeftBracket,
    RightBracket,
    Pipe,
    Identifier,
    Underscore,
    Number,
}

/// An attachment is used to pass parsed information from the lexical analysis to the parser.
#[derive(Clone, Copy, Debug, PartialEq, Eq, Structural)]
pub enum Attachment {
    Number(Number),
    Empty(Kind),
}

/// The kind of token an attachment belongs to.
pub open spec fn attachment_kind(attachment: Attachment) -> Kind {
    match attachment {
        Attachment::Number(..) => Kind::Number,
        Attachment::Empty(kind) => kind,
    }
}

impl Attachment {
    /// The kind of token this attachment belongs to.
    pub fn kind(&self) -> (r: Kind)
        ensures
            r == attachment_kind(*self),
    {
        match self {
            Attachment::Number(..) => Kind::Number,
            Attachment::Empty(kind) => *kind,
        }
    }

    /// The attachment of a token of the given kind that carries no information.
    pub fn from_kind(kind: Kind) -> (r: Attachment)
        ensures
            r == Attachment::Empty(kind),
    {
        Attachment::Empty(kind)
    }
}

/// A combination of a `Location` and an excerpt from the source code representing the lexeme.
#[derive(Clone, Copy, Debug, PartialEq)]
pub struct Lexeme<'source> {
    source: &'source str,
    start: Location,
}

impl<'source> View for Lexeme<'source> {
    type V = (Position, Seq<char>);

    closed spec fn view(&self) -> (Position, Seq<char>) {
        (self.start@, self.source@)
    }
}

impl<'source> Lexeme<'source> {
    /// Creates a new instance of a `Lexeme` with the given excerpt and start `Location`.
    pub fn new(source: &'source str, start: Location) -> (r: Lexeme<'source>)
        ensures
            r@ == (start@, source@),
    {
        Lexeme { source, start }
    }

    /// The start `Location` of this `Lexeme`.
    pub fn start(&self) -> (r: &Location)
        ensures
            r@ == self@.0,
    {
        &self.start
    }

    /// The source text of this `Lexeme`.
    pub fn source(&self) -> (r: &'source str)
        ensures
            r@ == self@.1,
    {
        self.source
    }
}

/// Trait for a lexical token, which contains a lexeme.
pub trait LexicalToken<'source> {
    /// The lexeme of this token, as a view.
    spec fn spec_lexeme(&self) -> (Position, Seq<char>);

    /// The `Lexeme` for this `LexicalToken`.
    fn lexeme(&self) -> (r: &Lexeme<'source>)
        ensures
            r@ == self.spec_lexeme(),
    ;

    /// The excerpt of the source file that represents this `LexicalToken`.
    fn source(&self) -> (r: &'source str)
        ensures
            r@ == self.spec_lexeme().1,
    {
        self.lexeme().source()
    }

    /// The start location in the source file of this `LexicalToken`.
    fn start(&self) -> (r: Location)
        ensures
            r@ == self.spec_lexeme().0,
    {
        *self.lexeme().start()
    }
}

/// A token with no lexical errors.
#[derive(Debug, PartialEq)]
pub struct ValidToken<'source> {
    lexeme: Lexeme<'source>,
    attachment: Attachment,
}

impl<'source> LexicalToken<'source> for ValidToken<'source> {
    closed spec fn spec_lexeme(&self) -> (Position, Seq<char>) {
        self.lexeme@
    }

    fn lexeme(&self) -> (r: &Lexeme<'source>) {
        &self.lexeme
    }
}

impl<'source> ValidToken<'source> {
    /// The attached data of this token.
    pub closed spec fn spec_attachment(&self) -> Attachment {
        self.attachment
    }

    /// Creates a new instance of a `ValidToken`.
    pub fn new(attachment: Attachment, lexeme: Lexeme<'source>) -> (r: ValidToken<'source>)
        ensures
            r.spec_attachment() == attachment,
            r.spec_lexeme() == lexeme@,
    {
        ValidToken { attachment, lexeme }
    }

    /// The attached data extracted during lexical analysis.
    pub fn attachment(&self) -> (r: &Attachment)
        ensures
            *r == self.spec_attachment(),
    {
        &self.attachment
    }

    /// Takes the attached data, leaving an attachment with the same kind and no data.
    pub fn take_attachment(&mut self) -> (r: Attachment)
        ensures
            r == old(self).spec_attachment(),
            final(self).spec_attachment() == Attachment::Empty(attachment_kind(r)),
            final(self).spec_lexeme() == old(self).spec_lexeme(),
    {
        let empty = Attachment::Empty(self.attachment.kind());
        let taken = self.attachment;
        self.attachment = empty;
        taken
    }

    /// The kind of token that was identified during lexical analysis.
    pub fn kind(&self) -> (r: Kind)
        ensures
            r == attachment_kind(self.spec_attachment()),
    {
        self.attachment.kind()
    }
}

/// A token with one or more lexical errors.
#[derive(Debug, PartialEq)]
pub struct InvalidToken<'source> {
    kind: Option<Kind>,
    lexeme: Lexeme<'source>,
    errors: Vec<LexicalError>,
}

impl<'source> LexicalToken<'source> for InvalidToken<'source> {
    closed spec fn spec_lexeme(&self) -> (Position, Seq<char>) {
        self.lexeme@
    }

    fn lexeme(&self) -> (r: &Lexeme<'source>) {
        &self.lexeme
    }
}

impl<'source> InvalidToken<'source> {
    /// The lexical errors of this token.
    pub closed spec fn spec_errors(&self) -> Seq<LexicalError> {
        self.errors@
    }

    /// The kind of token that was being scanned, if it was known.
    pub closed spec fn spec_kind(&self) -> Option<Kind> {
        self.kind
    }

    /// Creates a new instance of a `InvalidToken`.
    pub fn new(kind: Option<Kind>, lexeme: Lexeme<'source>, errors: Vec<LexicalError>) -> (r:
        InvalidToken<'source>)
        ensures
            r.spec_kind() == kind,
            r.spec_lexeme() == lexeme@,
            r.spec_errors() == errors@,
    {
        InvalidToken { kind, lexeme, errors }
    }

    /// The list of lexical errors for this token.
    pub fn errors(&self) -> (r: &[LexicalError])
        ensures
            r@ == self.spec_errors(),
    {
        self.errors.as_slice()
    }

    /// Takes the list of lexical errors of this token, leaving it with none.
    pub fn take_errors(&mut self) -> (r: Vec<LexicalError>)
        ensures
            r@ == old(self).spec_errors(),
            final(self).spec_errors() == Seq::<LexicalError>::empty(),
            final(self).spec_kind() == old(self).spec_kind(),
            final(self).spec_lexeme() == old(self).spec_lexeme(),
    {
        let mut errors = Vec::new();
        std::mem::swap(&mut errors, &mut self.errors);
        errors
    }

    /// The kind of token that was identified during lexical analysis.
    /// If the `Lexer` cannot determine the `Kind` of token, returns `None`.
    /// Otherwise, returns the kind that was being scanned.
    pub fn kind(&self) -> (r: Option<Kind>)
        ensures
            r == self.spec_kind(),
    {
        self.kind
    }
}

/// A lexical token with a reference to the source.
/// The reference is used when displaying lexemes in errors.
#[derive(Debug, PartialEq)]
pub enum Token<'source> {
    Valid(ValidToken<'source>),
    Invalid(InvalidToken<'source>),
}

impl<'source> Token<'source> {
    /// Creates a new `Token`: a valid one when `errors` is empty, otherwise an invalid one
    /// of the attachment's kind carrying the errors.
    pub fn new(attachment: Attachment, lexeme: Lexeme<'source>, errors: Vec<LexicalError>) -> (r:
        Token<'source>)
        ensures
            errors@.len() == 0 ==> (r matches Token::Valid(t) && t.spec_attachment() == attachment
                && t.spec_lexeme() == lexeme@),
            errors@.len() > 0 ==> (r matches Token::Invalid(t) && t.spec_kind() == Some(
                attachment_kind(attachment),
            ) && t.spec_lexeme() == lexeme@ && t.spec_errors() == errors@),
    {
        if errors.len() == 0 {
            Token::Valid(ValidToken::new(attachment, lexeme))
        } else {
            let kind = attachment.kind();
            Token::Invalid(InvalidToken::new(Some(kind), lexeme, errors))
        }
    }

    /// Creates a valid `Token` with no lexical errors.
    pub fn new_valid(attachment: Attachment, lexeme: Lexeme<'source>) -> (r: Token<'source>)
        ensures
            r matches Token::Valid(t) && t.spec_attachment() == attachment && t.spec_lexeme()
                == lexeme@,
    {
        Token::Valid(ValidToken::new(attachment, lexeme))
    }

    /// Creates an invalid `Token` with one or more lexical errors.
    pub fn new_invalid(kind: Option<Kind>, lexeme: Lexeme<'source>, errors: Vec<LexicalError>) -> (r:
        Token<'source>)
        ensures
            r matches Token::Invalid(t) && t.spec_kind() == kind && t.spec_lexeme() == lexeme@
                && t.spec_errors() == errors@,
    {
        Token::Invalid(InvalidToken::new(kind, lexeme, errors))
    }
}

} // verus!
