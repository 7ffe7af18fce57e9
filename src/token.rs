use vstd::prelude::*;

verus! {

/// A place in the source text.
#[derive(Debug, Clone, Copy, PartialEq, Eq, Structural)]
pub struct Position {
    pub line: u64,
    pub col: u64,
}

/// The kind of a token, with its payload for literals.
///
/// A float literal is held by its IEEE-754 bit pattern (`f64::to_bits`): the
/// parser only carries it into the tree.
#[derive(Debug, Clone, Copy, PartialEq, Eq, Structural)]
pub enum TokenType {
    Integer(i64),
    Float(u64),
    Boolean(bool),
    Plus,
    Minus,
    Multiply,
    Divide,
    Modulo,
    /// The `=` marker of an assignment.
    Assign,
    /// The `==` comparison marker.
    Equal,
    NotEqual,
    LesserThan,
    GreaterThan,
    LesserThanEqual,
    GreaterThanEqual,
    LeftParen,
    RightParen,
    Comma,
    Not,
    And,
    Or,
    Return,
    EndOfLine,
    EndOfFile,
}

#[derive(Debug, Clone, Copy, PartialEq, Eq, Structural)]
pub struct Token {
    pub token_type: TokenType,
    pub position: Position,
}

/// The name of a token kind, without its payload.
pub open spec fn kind_text(t: TokenType) -> Seq<char> {
    match t {
        TokenType::Integer(_) => "Integer"@,
        TokenType::Float(_) => "Float"@,
        TokenType::Boolean(_) => "Boolean"@,
        TokenType::Plus => "Plus"@,
        TokenType::Minus => "Minus"@,
        TokenType::Multiply => "Multiply"@,
        TokenType::Divide => "Divide"@,
        TokenType::Modulo => "Modulo"@,
        TokenType::Assign => "Assign"@,
        TokenType::Equal => "Equal"@,
        TokenType::NotEqual => "NotEqual"@,
        TokenType::LesserThan => "LesserThan"@,
        TokenType::GreaterThan => "GreaterThan"@,
        TokenType::LesserThanEqual => "LesserThanEqual"@,
        TokenType::GreaterThanEqual => "GreaterThanEqual"@,
        TokenType::LeftParen => "LeftParen"@,
        TokenType::RightParen => "RightParen"@,
        TokenType::Comma => "Comma"@,
        TokenType::Not => "Not"@,
        TokenType::And => "And"@,
        TokenType::Or => "Or"@,
        TokenType::Return => "Return"@,
        TokenType::EndOfLine => "EndOfLine"@,
        TokenType::EndOfFile => "EndOfFile"@,
    }
}

impl TokenType {
    /// The name of this token kind, without its payload.
    pub fn name(&self) -> (r: String)
        ensures
            r@ == kind_text(*self),
    {
        let s: &str = match self {
            TokenType::Integer(_) => "Integer",
            TokenType::Float(_) => "Float",
            TokenType::Boolean(_) => "Boolean",
            TokenType::Plus => "Plus",
            TokenType::Minus => "Minus",
            TokenType::Multiply => "Multiply",
            TokenType::Divide => "Divide",
            TokenType::Modulo => "Modulo",
            TokenType::Assign => "Assign",
            TokenType::Equal => "Equal",
            TokenType::NotEqual => "NotEqual",
            TokenType::LesserThan => "LesserThan",
            TokenType::GreaterThan => "GreaterThan",
            TokenType::LesserThanEqual => "LesserThanEqual",
            TokenType::GreaterThanEqual => "GreaterThanEqual",
            TokenType::LeftParen => "LeftParen",
            TokenType::RightParen => "RightParen",
            TokenType::Comma => "Comma",
            TokenType::Not => "Not",
            TokenType::And => "And",
            TokenType::Or => "Or",
            TokenType::Return => "Return",
            TokenType::EndOfLine => "EndOfLine",
            TokenType::EndOfFile => "EndOfFile",
        };
        String::from_str(s)
    }
}

impl Token {
    pub fn new(token_type: TokenType, line: u64, col: u64) -> (r: Token)
        ensures
            r.token_type == token_type,
            r.position == (Position { line, col }),
    {
        Token { token_type, position: Position { line, col } }
    }
}

} // verus!
