use vstd::prelude::*;
use crate::token::{kind_text, Position, TokenType};

verus! {

/// A diagnostic that knows where in the source it arose.
pub trait ErrorWithPosition {
    spec fn position_spec(&self) -> Position;

    fn position(&self) -> (r: Position)
        ensures
            r == self.position_spec(),
    ;
}

/// A token of one kind was expected and another one was found.
#[derive(Debug, Clone, PartialEq)]
pub struct TokenMismatch {
    pub err: String,
    pub expected: TokenType,
    pub found: TokenType,
    pub position: Position,
}

/// The shape of a token mismatch.
pub struct MismatchModel {
    pub err: Seq<char>,
    pub expected: TokenType,
    pub found: TokenType,
    pub position: Position,
}

impl TokenMismatch {
    pub open spec fn model(self) -> MismatchModel {
        MismatchModel {
            err: self.err@,
            expected: self.expected,
            found: self.found,
            position: self.position,
        }
    }

    pub fn from(err: String, expected: TokenType, found: TokenType, position: Position) -> (r: Self)
        ensures
            r.model() == (MismatchModel { err: err@, expected, found, position }),
    {
        TokenMismatch { err, expected, found, position }
    }

    pub fn from_str(err: &str, expected: TokenType, found: TokenType, position: Position) -> (r: Self)
        ensures
            r.model() == (MismatchModel { err: err@, expected, found, position }),
    {
        TokenMismatch::from(String::from_str(err), expected, found, position)
    }

    /// The name of this kind of diagnostic.
    pub fn get_name(&self) -> (r: String)
        ensures
            r@ == "TokenMismatch"@,
    {
        String::from_str("TokenMismatch")
    }
}

impl ErrorWithPosition for TokenMismatch {
    open spec fn position_spec(&self) -> Position {
        self.position
    }

    fn position(&self) -> (r: Position) {
        self.position
    }
}

/// A failure raised by a stage before any aggregate has caught it: free text,
/// or a structured diagnostic. Which one it is can be told at run time.
#[derive(Debug, Clone, PartialEq)]
pub enum DynamicError {
    Message(String),
    TokenMismatch(TokenMismatch),
}

/// The shape of a raised failure.
pub enum ErrModel {
    Message(Seq<char>),
    Mismatch(MismatchModel),
}

impl DynamicError {
    pub open spec fn model(self) -> ErrModel {
        match self {
            DynamicError::Message(s) => ErrModel::Message(s@),
            DynamicError::TokenMismatch(m) => ErrModel::Mismatch(m.model()),
        }
    }

    pub fn message(s: &str) -> (r: Self)
        ensures
            r.model() == ErrModel::Message(s@),
    {
        DynamicError::Message(String::from_str(s))
    }
}

/// The text of a mismatch between an expected and a found token kind.
pub open spec fn mismatch_text(expected: TokenType, found: TokenType) -> Seq<char> {
    "Expected token of type "@ + kind_text(expected) + ", found "@ + kind_text(found)
}

pub fn mismatch_message(expected: &TokenType, found: &TokenType) -> (r: String)
    ensures
        r@ == mismatch_text(*expected, *found),
{
    let s = String::from_str("Expected token of type ");
    let e = expected.name();
    let s = s.concat(e.as_str());
    let s = s.concat(", found ");
    let f = found.name();
    s.concat(f.as_str())
}

} // verus!

verus! {

/// The parser's error aggregate.
///
/// Every failure the parser raises reaches its caller as `Error`: the labelled
/// `TokenMismatch` case is declared for introspection and is not filled on
/// that path.
#[derive(Debug, Clone, PartialEq)]
pub enum ParserErrors {
    String(String),
    Error(DynamicError),
    TokenMismatch(TokenMismatch),
}

} // verus!

verus! {

/// The whitespace that separates words of a rendering.
pub open spec fn is_space(c: char) -> bool {
    c == ' ' || c == '\t' || c == '\n' || c == '\r'
}

pub open spec fn skip_spaces(s: Seq<char>) -> Seq<char>
    decreases s.len(),
{
    if s.len() > 0 && is_space(s[0]) {
        skip_spaces(s.drop_first())
    } else {
        s
    }
}

pub open spec fn take_word(s: Seq<char>) -> Seq<char>
    decreases s.len(),
{
    if s.len() == 0 || is_space(s[0]) {
        Seq::empty()
    } else {
        seq![s[0]] + take_word(s.drop_first())
    }
}

/// The first whitespace-delimited word of `s`, or nothing when it has none.
pub open spec fn first_word(s: Seq<char>) -> Seq<char> {
    take_word(skip_spaces(s))
}

/// The first whitespace-delimited word of `s`.
pub fn first_word_of(s: &str) -> (r: String)
    ensures
        r@ == first_word(s@),
{
    let n = s.unicode_len();
    let mut i: usize = 0;
    assert(s@.subrange(0, n as int) =~= s@);
    while i < n && is_space_char(s.get_char(i))
        invariant
            i <= n,
            n == s@.len(),
            skip_spaces(s@) == skip_spaces(s@.subrange(i as int, n as int)),
        decreases n - i,
    {
        proof {
            assert(s@.subrange(i as int, n as int).drop_first() =~= s@.subrange(i + 1, n as int));
        }
        i += 1;
    }
    proof {
        assert(skip_spaces(s@.subrange(i as int, n as int)) == s@.subrange(i as int, n as int));
    }
    let mut j: usize = i;
    while j < n && !is_space_char(s.get_char(j))
        invariant
            i <= j <= n,
            n == s@.len(),
            take_word(s@.subrange(i as int, n as int)) == s@.subrange(i as int, j as int) + take_word(
                s@.subrange(j as int, n as int),
            ),
        decreases n - j,
    {
        proof {
            let rest = s@.subrange(j as int, n as int);
            assert(rest.drop_first() =~= s@.subrange(j + 1, n as int));
            assert(s@.subrange(i as int, j + 1) =~= s@.subrange(i as int, j as int) + seq![rest[0]]);
        }
        j += 1;
    }
    proof {
        assert(take_word(s@.subrange(j as int, n as int)) == Seq::<char>::empty());
        assert(s@.subrange(i as int, j as int) + Seq::<char>::empty() =~= s@.subrange(i as int, j as int));
    }
    String::from_str(s.substring_char(i, j))
}

fn is_space_char(c: char) -> (r: bool)
    ensures
        r == is_space(c),
{
    c == ' ' || c == '\t' || c == '\n' || c == '\r'
}

/// The detailed, field-by-field rendering of a token mismatch.
pub open spec fn mismatch_detail(m: MismatchModel) -> Seq<char> {
    "TokenMismatch {\n    err: \""@ + m.err + "\",\n    expected: "@ + kind_text(m.expected)
        + ",\n    found: "@ + kind_text(m.found) + ",\n}"@
}

/// The detailed rendering of a raised failure: free text in quotes, a
/// structured diagnostic field by field.
pub open spec fn detail(e: ErrModel) -> Seq<char> {
    match e {
        ErrModel::Message(s) => "\""@ + s + "\""@,
        ErrModel::Mismatch(m) => mismatch_detail(m),
    }
}

impl TokenMismatch {
    /// The detailed, field-by-field rendering.
    pub fn detailed(&self) -> (r: String)
        ensures
            r@ == mismatch_detail(self.model()),
    {
        let s = String::from_str("TokenMismatch {\n    err: \"");
        let s = s.concat(self.err.as_str());
        let s = s.concat("\",\n    expected: ");
        let e = self.expected.name();
        let s = s.concat(e.as_str());
        let s = s.concat(",\n    found: ");
        let f = self.found.name();
        let s = s.concat(f.as_str());
        s.concat(",\n}")
    }
}

impl DynamicError {
    /// The detailed rendering.
    pub fn detailed(&self) -> (r: String)
        ensures
            r@ == detail(self.model()),
    {
        match self {
            DynamicError::Message(s) => {
                let q = String::from_str("\"");
                let q = q.concat(s.as_str());
                q.concat("\"")
            },
            DynamicError::TokenMismatch(m) => m.detailed(),
        }
    }
}

/// The stage-agnostic view of an error aggregate.
pub trait ErrorList {
    spec fn list_name_spec(&self) -> Seq<char>;

    spec fn print_spec(&self) -> Seq<char>;

    spec fn error_name_spec(&self) -> Seq<char>;

    /// The name of the aggregate.
    fn list_name(&self) -> (r: String)
        ensures
            r@ == self.list_name_spec(),
    ;

    /// The text shown to a user.
    fn print(&self) -> (r: String)
        ensures
            r@ == self.print_spec(),
    ;

    /// The name of the kind of error held.
    fn error_name(&self) -> (r: String)
        ensures
            r@ == self.error_name_spec(),
    ;
}

impl ParserErrors {
    pub open spec fn print_text(self) -> Seq<char> {
        match self {
            ParserErrors::String(s) => s@,
            ParserErrors::Error(DynamicError::Message(s)) => s@,
            ParserErrors::Error(DynamicError::TokenMismatch(m)) => mismatch_detail(m.model()),
            ParserErrors::TokenMismatch(m) => mismatch_detail(m.model()),
        }
    }

    pub open spec fn error_name_text(self) -> Seq<char> {
        match self {
            ParserErrors::String(_) => "None"@,
            ParserErrors::Error(e) => first_word(detail(e.model())),
            ParserErrors::TokenMismatch(_) => "ParserErrors"@,
        }
    }

    /// Free text becomes the free-text case.
    pub fn from_str(err: &str) -> (r: Self)
        ensures
            r matches ParserErrors::String(s) && s@ == err@,
    {
        ParserErrors::String(String::from_str(err))
    }

    /// A raised failure becomes the wrapped case, whatever its kind.
    pub fn from_error(err: DynamicError) -> (r: Self)
        ensures
            r == ParserErrors::Error(err),
    {
        ParserErrors::Error(err)
    }

    /// The aggregate behind the reportable interface.
    pub fn into_report(self) -> (r: ErrorReport)
        ensures
            r == ErrorReport::Parser(self),
    {
        ErrorReport::Parser(self)
    }

    /// Back from the reportable interface: only the aggregate's name survives.
    pub fn from_report(report: &ErrorReport) -> (r: Self)
        ensures
            r matches ParserErrors::String(s) && s@ == report.list_name_spec(),
    {
        ParserErrors::String(report.list_name())
    }
}

impl ErrorList for ParserErrors {
    open spec fn list_name_spec(&self) -> Seq<char> {
        "ParserErrors"@
    }

    open spec fn print_spec(&self) -> Seq<char> {
        self.print_text()
    }

    open spec fn error_name_spec(&self) -> Seq<char> {
        self.error_name_text()
    }

    fn list_name(&self) -> (r: String) {
        String::from_str("ParserErrors")
    }

    fn print(&self) -> (r: String) {
        match self {
            ParserErrors::String(s) => s.clone(),
            ParserErrors::Error(DynamicError::Message(s)) => s.clone(),
            ParserErrors::Error(DynamicError::TokenMismatch(m)) => m.detailed(),
            ParserErrors::TokenMismatch(m) => m.detailed(),
        }
    }

    fn error_name(&self) -> (r: String) {
        match self {
            ParserErrors::String(_) => String::from_str("None"),
            ParserErrors::Error(e) => {
                let d = e.detailed();
                first_word_of(d.as_str())
            },
            ParserErrors::TokenMismatch(_) => String::from_str("ParserErrors"),
        }
    }
}

/// The error aggregate of another pipeline stage, held by what it reports.
#[derive(Debug, Clone, PartialEq)]
pub struct StageReport {
    pub list_name: String,
    pub error_name: String,
    pub text: String,
}

/// An error aggregate of any stage, seen only through the reportable interface.
#[derive(Debug, Clone, PartialEq)]
pub enum ErrorReport {
    Parser(ParserErrors),
    Stage(StageReport),
}

impl ErrorList for ErrorReport {
    open spec fn list_name_spec(&self) -> Seq<char> {
        match self {
            ErrorReport::Parser(_) => "ParserErrors"@,
            ErrorReport::Stage(s) => s.list_name@,
        }
    }

    open spec fn print_spec(&self) -> Seq<char> {
        match self {
            ErrorReport::Parser(p) => p.print_text(),
            ErrorReport::Stage(s) => s.text@,
        }
    }

    open spec fn error_name_spec(&self) -> Seq<char> {
        match self {
            ErrorReport::Parser(p) => p.error_name_text(),
            ErrorReport::Stage(s) => s.error_name@,
        }
    }

    fn list_name(&self) -> (r: String) {
        match self {
            ErrorReport::Parser(p) => p.list_name(),
            ErrorReport::Stage(s) => s.list_name.clone(),
        }
    }

    fn print(&self) -> (r: String) {
        match self {
            ErrorReport::Parser(p) => p.print(),
            ErrorReport::Stage(s) => s.text.clone(),
        }
    }

    fn error_name(&self) -> (r: String) {
        match self {
            ErrorReport::Parser(p) => p.error_name(),
            ErrorReport::Stage(s) => s.error_name.clone(),
        }
    }
}

/// The token mismatch that a report carries, found by its run-time kind: only
/// a parser aggregate's wrapped case is looked into, never its labelled case.
pub open spec fn carried_mismatch(report: ErrorReport) -> Option<TokenMismatch> {
    match report {
        ErrorReport::Parser(ParserErrors::Error(DynamicError::TokenMismatch(m))) => Some(m),
        _ => None,
    }
}

/// Recovers a token mismatch from behind the reportable interface.
pub fn extract_token_mismatch(report: &ErrorReport) -> (r: Option<TokenMismatch>)
    ensures
        r == carried_mismatch(*report),
{
    if let ErrorReport::Parser(list) = report {
        if let ParserErrors::Error(DynamicError::TokenMismatch(m)) = list {
            return Some(
                TokenMismatch {
                    err: m.err.clone(),
                    expected: m.expected,
                    found: m.found,
                    position: m.position,
                },
            );
        }
    }
    None
}

} // verus!
