use another_interpreted_language::ast::{
    ArithmeticOperator, Expression, Literal, LogicalOperator, Node, Operator,
};
use another_interpreted_language::errors::{DynamicError, ParserErrors, TokenMismatch};
use another_interpreted_language::parser::Parser;
use another_interpreted_language::token::{Position, Token, TokenType};

fn tokens(kinds: &[TokenType]) -> Vec<Token> {
    kinds
        .iter()
        .enumerate()
        .map(|(i, k)| Token::new(*k, 1, i as u64 + 1))
        .collect()
}

fn parse(kinds: &[TokenType]) -> Result<Node, ParserErrors> {
    let toks = tokens(kinds);
    let mut parser = Parser::from(&toks);
    parser.parse()
}

fn lit(v: i64) -> Expression {
    Expression::Literal(Literal::Integer(v))
}

fn bin(l: Expression, op: ArithmeticOperator, r: Expression) -> Expression {
    Expression::BinaryExpression(Box::new(l), op, Box::new(r))
}

fn single(e: Expression) -> Node {
    Node::Program(vec![Node::ExpressionStatement(e)])
}

fn mismatch(r: Result<Node, ParserErrors>) -> TokenMismatch {
    match r {
        Err(ParserErrors::Error(DynamicError::TokenMismatch(m))) => m,
        other => panic!("expected a token mismatch, got {:?}", other),
    }
}

use TokenType::{
    And, Assign, Boolean, Comma, Divide, EndOfFile, EndOfLine, Equal, Float, GreaterThan,
    GreaterThanEqual, Integer, LeftParen, LesserThan, LesserThanEqual, Minus, Modulo, Multiply, Not,
    NotEqual, Or, Plus, Return, RightParen,
};

#[test]
fn multiplication_binds_tighter_than_addition() {
    let r = parse(&[Integer(1), Plus, Integer(2), Multiply, Integer(3), EndOfLine, EndOfFile]);
    let expected = bin(
        lit(1),
        ArithmeticOperator::Plus,
        bin(lit(2), ArithmeticOperator::Multiply, lit(3)),
    );
    assert_eq!(r, Ok(single(expected)));
}

#[test]
fn subtraction_is_left_associative() {
    let r = parse(&[Integer(1), Minus, Integer(2), Minus, Integer(3), EndOfLine, EndOfFile]);
    let expected = bin(
        bin(lit(1), ArithmeticOperator::Minus, lit(2)),
        ArithmeticOperator::Minus,
        lit(3),
    );
    assert_eq!(r, Ok(single(expected)));
}

#[test]
fn assignment_to_a_literal_is_an_invalid_target() {
    let r = parse(&[Integer(1), Assign, Integer(2), EndOfLine, EndOfFile]);
    assert_eq!(
        r,
        Err(ParserErrors::Error(DynamicError::Message("Invalid assignment target".to_string())))
    );
}

#[test]
fn chained_assignment_to_literals_is_an_invalid_target() {
    let r = parse(&[Integer(1), Assign, Integer(2), Assign, Integer(3), EndOfLine, EndOfFile]);
    assert_eq!(
        r,
        Err(ParserErrors::Error(DynamicError::Message("Invalid assignment target".to_string())))
    );
}

#[test]
fn equality_fails_with_a_mismatch_expecting_equal() {
    let m = mismatch(parse(&[Integer(1), Equal, Integer(2), EndOfLine, EndOfFile]));
    assert_eq!(m.expected, Equal);
    assert_eq!(m.found, Equal);
    assert_eq!(m.position, Position { line: 1, col: 2 });
    assert_eq!(m.err, "Expected token of type Equal, found Equal");
}

#[test]
fn not_equal_fails_with_a_mismatch_expecting_equal() {
    let m = mismatch(parse(&[Integer(1), NotEqual, Integer(2), EndOfLine, EndOfFile]));
    assert_eq!(m.expected, Equal);
    assert_eq!(m.found, NotEqual);
}

#[test]
fn comparison_parses_to_a_logical_expression() {
    let r = parse(&[Integer(1), LesserThan, Integer(2), EndOfLine, EndOfFile]);
    let expected = Expression::LogicalExpression(
        Box::new(lit(1)),
        LogicalOperator::LesserThan,
        Box::new(lit(2)),
    );
    assert_eq!(r, Ok(single(expected)));
}

#[test]
fn each_comparison_operator_maps_to_its_logical_operator() {
    let cases = [
        (GreaterThan, LogicalOperator::GreaterThan),
        (LesserThanEqual, LogicalOperator::LesserThanEqual),
        (GreaterThanEqual, LogicalOperator::GreaterThanEqual),
    ];
    for (tok, op) in cases {
        let r = parse(&[Integer(4), tok, Integer(5), EndOfLine, EndOfFile]);
        let expected =
            Expression::LogicalExpression(Box::new(lit(4)), op, Box::new(lit(5)));
        assert_eq!(r, Ok(single(expected)));
    }
}

#[test]
fn calls_chain_left_to_right() {
    let r = parse(&[Integer(7), LeftParen, RightParen, LeftParen, RightParen, EndOfLine, EndOfFile]);
    let inner = Expression::CallExpression(Box::new(lit(7)), vec![]);
    let expected = Expression::CallExpression(Box::new(inner), vec![]);
    assert_eq!(r, Ok(single(expected)));
}

#[test]
fn call_arguments_keep_their_order() {
    let r = parse(&[
        Integer(7), LeftParen, Integer(1), Comma, Integer(2), Plus, Integer(3), RightParen,
        EndOfLine, EndOfFile,
    ]);
    let args = vec![lit(1), bin(lit(2), ArithmeticOperator::Plus, lit(3))];
    let expected = Expression::CallExpression(Box::new(lit(7)), args);
    assert_eq!(r, Ok(single(expected)));
}

#[test]
fn missing_closing_parenthesis_names_the_token_found() {
    let m = mismatch(parse(&[
        Integer(7), LeftParen, Integer(1), Comma, Integer(2), EndOfLine, EndOfFile,
    ]));
    assert_eq!(m.expected, RightParen);
    assert_eq!(m.found, EndOfLine);
    assert_eq!(m.position, Position { line: 1, col: 6 });
    assert_eq!(m.err, "Expected ) after arguments");
}

#[test]
fn a_lone_line_end_is_an_empty_statement() {
    let r = parse(&[EndOfLine, EndOfFile]);
    assert_eq!(r, Ok(Node::Program(vec![Node::EmptyStatement])));
}

#[test]
fn blank_lines_are_kept_one_to_one() {
    let r = parse(&[EndOfLine, Integer(1), EndOfLine, EndOfLine, EndOfFile]);
    assert_eq!(
        r,
        Ok(Node::Program(vec![
            Node::EmptyStatement,
            Node::ExpressionStatement(lit(1)),
            Node::EmptyStatement,
        ]))
    );
}

#[test]
fn missing_line_end_fails_with_a_mismatch_expecting_it() {
    let m = mismatch(parse(&[Integer(1), Plus, Integer(1), EndOfFile]));
    assert_eq!(m.expected, EndOfLine);
    assert_eq!(m.found, EndOfFile);
    assert_eq!(m.position, Position { line: 1, col: 4 });
    assert_eq!(m.err, "Expected token of type EndOfLine, found EndOfFile");
}

#[test]
fn empty_input_is_an_empty_program() {
    assert_eq!(parse(&[EndOfFile]), Ok(Node::Program(vec![])));
    assert_eq!(parse(&[]), Ok(Node::Program(vec![])));
}

#[test]
fn bare_return_has_no_value() {
    let r = parse(&[Return, EndOfLine, EndOfFile]);
    assert_eq!(r, Ok(Node::Program(vec![Node::ReturnStatement(None)])));
}

#[test]
fn return_with_a_value_takes_no_line_end() {
    let r = parse(&[Return, Integer(3), EndOfLine, EndOfFile]);
    assert_eq!(
        r,
        Ok(Node::Program(vec![
            Node::ReturnStatement(Some(lit(3))),
            Node::EmptyStatement,
        ]))
    );
}

#[test]
fn prefix_operators_nest_to_the_right() {
    let r = parse(&[Minus, Not, Boolean(true), EndOfLine, EndOfFile]);
    let not = Expression::UnaryExpression(
        Operator::Logical(LogicalOperator::Not),
        Box::new(Expression::Literal(Literal::Boolean(true))),
    );
    let expected = Expression::UnaryExpression(
        Operator::Arithmetic(ArithmeticOperator::Minus),
        Box::new(not),
    );
    assert_eq!(r, Ok(single(expected)));
}

#[test]
fn and_binds_tighter_than_or() {
    let r = parse(&[
        Boolean(true), Or, Boolean(false), And, Boolean(true), EndOfLine, EndOfFile,
    ]);
    let b = |v| Expression::Literal(Literal::Boolean(v));
    let and = Expression::LogicalExpression(Box::new(b(false)), LogicalOperator::And, Box::new(b(true)));
    let expected = Expression::LogicalExpression(Box::new(b(true)), LogicalOperator::Or, Box::new(and));
    assert_eq!(r, Ok(single(expected)));
}

#[test]
fn division_and_modulo_fold_left() {
    let r = parse(&[Integer(8), Divide, Integer(4), Modulo, Integer(3), EndOfLine, EndOfFile]);
    let expected = bin(
        bin(lit(8), ArithmeticOperator::Divide, lit(4)),
        ArithmeticOperator::Modulo,
        lit(3),
    );
    assert_eq!(r, Ok(single(expected)));
}

#[test]
fn float_literals_keep_their_bits() {
    let bits = 2.5f64.to_bits();
    let r = parse(&[Float(bits), EndOfLine, EndOfFile]);
    assert_eq!(r, Ok(single(Expression::Literal(Literal::Float(bits)))));
    assert_eq!(f64::from_bits(bits), 2.5);
}

#[test]
fn a_non_literal_operand_is_rejected() {
    let r = parse(&[Plus, EndOfLine, EndOfFile]);
    assert_eq!(
        r,
        Err(ParserErrors::Error(DynamicError::Message(
            "Expected expression, received 'Plus'".to_string()
        )))
    );
}

#[test]
fn a_stream_without_end_marker_fails_at_its_end() {
    let r = parse(&[Integer(1), Plus]);
    assert_eq!(
        r,
        Err(ParserErrors::Error(DynamicError::Message("Unexpected end of input".to_string())))
    );
}

#[test]
fn the_first_error_aborts_the_parse() {
    let r = parse(&[Integer(1), EndOfLine, Comma, EndOfLine, Integer(2), EndOfLine, EndOfFile]);
    assert_eq!(
        r,
        Err(ParserErrors::Error(DynamicError::Message(
            "Expected expression, received 'Comma'".to_string()
        )))
    );
}
