use vstd::prelude::*;
use crate::token::{Token, TokenType};

verus! {

broadcast use vstd::std_specs::vec::axiom_vec_decreases_to_view, vstd::seq::axiom_seq_index_decreases;

#[derive(Debug, Clone, Copy, PartialEq, Eq, Structural)]
pub enum ArithmeticOperator {
    Plus,
    Minus,
    Multiply,
    Divide,
    Modulo,
}

#[derive(Debug, Clone, Copy, PartialEq, Eq, Structural)]
pub enum LogicalOperator {
    And,
    Or,
    Not,
    LesserThan,
    GreaterThan,
    LesserThanEqual,
    GreaterThanEqual,
}

/// The operator of a unary expression.
#[derive(Debug, Clone, Copy, PartialEq, Eq, Structural)]
pub enum Operator {
    Arithmetic(ArithmeticOperator),
    Logical(LogicalOperator),
}

/// A literal value; a float is held by its IEEE-754 bit pattern.
#[derive(Debug, Clone, Copy, PartialEq, Eq, Structural)]
pub enum Literal {
    Integer(i64),
    Float(u64),
    Boolean(bool),
}

#[derive(Debug, PartialEq)]
pub enum Expression {
    Literal(Literal),
    Variable(String),
    Assignment(String, Box<Expression>),
    LogicalExpression(Box<Expression>, LogicalOperator, Box<Expression>),
    BinaryExpression(Box<Expression>, ArithmeticOperator, Box<Expression>),
    UnaryExpression(Operator, Box<Expression>),
    CallExpression(Box<Expression>, Vec<Expression>),
}

/// A syntax tree node: the program root or one of its statements.
#[derive(Debug, PartialEq)]
pub enum Node {
    Program(Vec<Node>),
    EmptyStatement,
    ReturnStatement(Option<Expression>),
    ExpressionStatement(Expression),
}

/// The mathematical shape of an expression tree.
pub enum ExprModel {
    Literal(Literal),
    Variable(Seq<char>),
    Assignment(Seq<char>, Box<ExprModel>),
    Logical(Box<ExprModel>, LogicalOperator, Box<ExprModel>),
    Binary(Box<ExprModel>, ArithmeticOperator, Box<ExprModel>),
    Unary(Operator, Box<ExprModel>),
    Call(Box<ExprModel>, Seq<ExprModel>),
}

/// The mathematical shape of a statement.
pub enum StatementModel {
    Empty,
    Return(Option<ExprModel>),
    Expression(ExprModel),
}

/// The models of the first `n` expressions of `s`.
pub open spec fn models_upto(s: Seq<Expression>, n: nat) -> Seq<ExprModel>
    decreases s, n + 1,
{
    if n == 0 || n > s.len() {
        Seq::empty()
    } else {
        models_upto(s, (n - 1) as nat).push(s[n - 1].model())
    }
}

pub open spec fn models(s: Seq<Expression>) -> Seq<ExprModel> {
    models_upto(s, s.len())
}

impl Expression {
    pub open spec fn model(self) -> ExprModel
        decreases self, 0nat,
    {
        match self {
            Expression::Literal(l) => ExprModel::Literal(l),
            Expression::Variable(n) => ExprModel::Variable(n@),
            Expression::Assignment(n, v) => ExprModel::Assignment(n@, Box::new(v.model())),
            Expression::LogicalExpression(l, op, r) => ExprModel::Logical(
                Box::new(l.model()),
                op,
                Box::new(r.model()),
            ),
            Expression::BinaryExpression(l, op, r) => ExprModel::Binary(
                Box::new(l.model()),
                op,
                Box::new(r.model()),
            ),
            Expression::UnaryExpression(op, e) => ExprModel::Unary(op, Box::new(e.model())),
            Expression::CallExpression(c, args) => ExprModel::Call(
                Box::new(c.model()),
                models_upto(args@, args@.len()),
            ),
        }
    }
}

pub proof fn lemma_models_push(s: Seq<Expression>, e: Expression)
    ensures
        models(s.push(e)) == models(s).push(e.model()),
{
    assert forall|k: nat| k <= s.len() implies models_upto(s.push(e), k) == models_upto(s, k) by {
        lemma_models_upto_prefix(s, e, k);
    }
    assert(s.push(e)[s.len() as int] == e);
}

proof fn lemma_models_upto_prefix(s: Seq<Expression>, e: Expression, k: nat)
    requires
        k <= s.len(),
    ensures
        models_upto(s.push(e), k) == models_upto(s, k),
    decreases k,
{
    if k > 0 {
        lemma_models_upto_prefix(s, e, (k - 1) as nat);
        assert(s.push(e)[k - 1] == s[k - 1]);
    }
}

impl Node {
    /// The shape of a statement node; a program root has none.
    pub open spec fn statement_model(self) -> Option<StatementModel> {
        match self {
            Node::Program(_) => None,
            Node::EmptyStatement => Some(StatementModel::Empty),
            Node::ReturnStatement(v) => Some(
                StatementModel::Return(
                    match v {
                        Some(e) => Some(e.model()),
                        None => None,
                    },
                ),
            ),
            Node::ExpressionStatement(e) => Some(StatementModel::Expression(e.model())),
        }
    }
}

/// The arithmetic operator that a token kind denotes, if any.
pub open spec fn arithmetic_of(t: TokenType) -> Option<ArithmeticOperator> {
    match t {
        TokenType::Plus => Some(ArithmeticOperator::Plus),
        TokenType::Minus => Some(ArithmeticOperator::Minus),
        TokenType::Multiply => Some(ArithmeticOperator::Multiply),
        TokenType::Divide => Some(ArithmeticOperator::Divide),
        TokenType::Modulo => Some(ArithmeticOperator::Modulo),
        _ => None,
    }
}

/// The logical operator that a token kind denotes, if any.
pub open spec fn logical_of(t: TokenType) -> Option<LogicalOperator> {
    match t {
        TokenType::And => Some(LogicalOperator::And),
        TokenType::Or => Some(LogicalOperator::Or),
        TokenType::Not => Some(LogicalOperator::Not),
        TokenType::LesserThan => Some(LogicalOperator::LesserThan),
        TokenType::GreaterThan => Some(LogicalOperator::GreaterThan),
        TokenType::LesserThanEqual => Some(LogicalOperator::LesserThanEqual),
        TokenType::GreaterThanEqual => Some(LogicalOperator::GreaterThanEqual),
        _ => None,
    }
}

/// Maps an operator token to its arithmetic operator; `None` for any other token.
pub fn op_token_to_arithmetic(token: &Token) -> (r: Option<ArithmeticOperator>)
    ensures
        r == arithmetic_of(token.token_type),
{
    match token.token_type {
        TokenType::Plus => Some(ArithmeticOperator::Plus),
        TokenType::Minus => Some(ArithmeticOperator::Minus),
        TokenType::Multiply => Some(ArithmeticOperator::Multiply),
        TokenType::Divide => Some(ArithmeticOperator::Divide),
        TokenType::Modulo => Some(ArithmeticOperator::Modulo),
        _ => None,
    }
}

/// Maps an operator token to its logical operator; `None` for any other token.
pub fn op_token_to_logical(token: &Token) -> (r: Option<LogicalOperator>)
    ensures
        r == logical_of(token.token_type),
{
    match token.token_type {
        TokenType::And => Some(LogicalOperator::And),
        TokenType::Or => Some(LogicalOperator::Or),
        TokenType::Not => Some(LogicalOperator::Not),
        TokenType::LesserThan => Some(LogicalOperator::LesserThan),
        TokenType::GreaterThan => Some(LogicalOperator::GreaterThan),
        TokenType::LesserThanEqual => Some(LogicalOperator::LesserThanEqual),
        TokenType::GreaterThanEqual => Some(LogicalOperator::GreaterThanEqual),
        _ => None,
    }
}

} // verus!
