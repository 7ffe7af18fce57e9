//! The language's grammar as functions from a token sequence and a start
//! index to the tree parsed there and the index after it, or the first error.
use vstd::prelude::*;
use crate::ast::{arithmetic_of, logical_of, ArithmeticOperator, ExprModel, LogicalOperator, Operator, StatementModel};
use crate::errors::{mismatch_text, ErrModel, MismatchModel};
use crate::token::{kind_text, Token, TokenType};

verus! {

pub type ExprResult = Result<(ExprModel, int), ErrModel>;

/// The cursor stands on an end-of-file marker, or outside the sequence.
pub open spec fn at_end(toks: Seq<Token>, pos: int) -> bool {
    pos < 0 || pos >= toks.len() || toks[pos].token_type == TokenType::EndOfFile
}

/// The cursor stands on a token of kind `k` that is not the end of input.
pub open spec fn is_kind(toks: Seq<Token>, pos: int, k: TokenType) -> bool {
    !at_end(toks, pos) && toks[pos].token_type == k
}

pub open spec fn end_of_input() -> ErrModel {
    ErrModel::Message("Unexpected end of input"@)
}

pub open spec fn invalid_target() -> ErrModel {
    ErrModel::Message("Invalid assignment target"@)
}

pub open spec fn expected_expression(t: TokenType) -> ErrModel {
    ErrModel::Message("Expected expression, received '"@ + kind_text(t) + "'"@)
}

/// A token of kind `expected` was required at `pos`.
pub open spec fn mismatch_at(toks: Seq<Token>, pos: int, expected: TokenType) -> ErrModel {
    if 0 <= pos < toks.len() {
        ErrModel::Mismatch(
            MismatchModel {
                err: mismatch_text(expected, toks[pos].token_type),
                expected,
                found: toks[pos].token_type,
                position: toks[pos].position,
            },
        )
    } else {
        end_of_input()
    }
}

/// The closing parenthesis of an argument list was required at `pos`.
pub open spec fn unclosed_call_at(toks: Seq<Token>, pos: int) -> ErrModel {
    if 0 <= pos < toks.len() {
        ErrModel::Mismatch(
            MismatchModel {
                err: "Expected ) after arguments"@,
                expected: TokenType::RightParen,
                found: toks[pos].token_type,
                position: toks[pos].position,
            },
        )
    } else {
        end_of_input()
    }
}

/// An equality operator token whose operator could not be mapped.
pub open spec fn unmapped_equality(t: Token) -> ErrModel {
    ErrModel::Mismatch(
        MismatchModel {
            err: mismatch_text(TokenType::Equal, t.token_type),
            expected: TokenType::Equal,
            found: t.token_type,
            position: t.position,
        },
    )
}

/// `q` is no index a parse that started at `pos` can end at.
pub open spec fn out_of_step(toks: Seq<Token>, pos: int, q: int) -> bool {
    q < pos || q > toks.len()
}

pub open spec fn in_range(toks: Seq<Token>, pos: int) -> bool {
    0 <= pos <= toks.len()
}

pub open spec fn bin(l: ExprModel, op: ArithmeticOperator, r: ExprModel) -> ExprModel {
    ExprModel::Binary(Box::new(l), op, Box::new(r))
}

pub open spec fn logic(l: ExprModel, op: LogicalOperator, r: ExprModel) -> ExprModel {
    ExprModel::Logical(Box::new(l), op, Box::new(r))
}

/// assignment: logical-or, optionally followed by `=` and an assignment.
pub open spec fn parse_assignment(toks: Seq<Token>, pos: int) -> ExprResult
    decreases toks.len() - pos, 20int,
{
    if !in_range(toks, pos) {
        Err(end_of_input())
    } else {
        match parse_or(toks, pos) {
            Err(e) => Err(e),
            Ok((left, p)) => if out_of_step(toks, pos, p) {
                Err(end_of_input())
            } else if is_kind(toks, p, TokenType::Assign) {
                match parse_assignment(toks, p + 1) {
                    Err(e) => Err(e),
                    Ok((value, q)) => match left {
                        ExprModel::Variable(name) => Ok(
                            (ExprModel::Assignment(name, Box::new(value)), q),
                        ),
                        _ => Err(invalid_target()),
                    },
                }
            } else {
                Ok((left, p))
            },
        }
    }
}

pub open spec fn parse_or(toks: Seq<Token>, pos: int) -> ExprResult
    decreases toks.len() - pos, 19int,
{
    if !in_range(toks, pos) {
        Err(end_of_input())
    } else {
        match parse_and(toks, pos) {
            Err(e) => Err(e),
            Ok((left, p)) => if out_of_step(toks, pos, p) {
                Err(end_of_input())
            } else {
                parse_or_rest(toks, p, left)
            },
        }
    }
}

/// The `or` operators that follow `left`, folded to the left.
pub open spec fn parse_or_rest(toks: Seq<Token>, pos: int, left: ExprModel) -> ExprResult
    decreases toks.len() - pos, 18int,
{
    if is_kind(toks, pos, TokenType::Or) {
        match parse_and(toks, pos + 1) {
            Err(e) => Err(e),
            Ok((right, q)) => if out_of_step(toks, pos + 1, q) {
                Err(end_of_input())
            } else {
                parse_or_rest(toks, q, logic(left, LogicalOperator::Or, right))
            },
        }
    } else {
        Ok((left, pos))
    }
}

pub open spec fn parse_and(toks: Seq<Token>, pos: int) -> ExprResult
    decreases toks.len() - pos, 17int,
{
    if !in_range(toks, pos) {
        Err(end_of_input())
    } else {
        match parse_equality(toks, pos) {
            Err(e) => Err(e),
            Ok((left, p)) => if out_of_step(toks, pos, p) {
                Err(end_of_input())
            } else {
                parse_and_rest(toks, p, left)
            },
        }
    }
}

pub open spec fn parse_and_rest(toks: Seq<Token>, pos: int, left: ExprModel) -> ExprResult
    decreases toks.len() - pos, 16int,
{
    if is_kind(toks, pos, TokenType::And) {
        match parse_equality(toks, pos + 1) {
            Err(e) => Err(e),
            Ok((right, q)) => if out_of_step(toks, pos + 1, q) {
                Err(end_of_input())
            } else {
                parse_and_rest(toks, q, logic(left, LogicalOperator::And, right))
            },
        }
    } else {
        Ok((left, pos))
    }
}

pub open spec fn parse_equality(toks: Seq<Token>, pos: int) -> ExprResult
    decreases toks.len() - pos, 15int,
{
    if !in_range(toks, pos) {
        Err(end_of_input())
    } else {
        match parse_comparison(toks, pos) {
            Err(e) => Err(e),
            Ok((left, p)) => if out_of_step(toks, pos, p) {
                Err(end_of_input())
            } else {
                parse_equality_rest(toks, p, left)
            },
        }
    }
}

pub open spec fn is_equality_op(toks: Seq<Token>, pos: int) -> bool {
    is_kind(toks, pos, TokenType::Equal) || is_kind(toks, pos, TokenType::NotEqual)
}

/// Equality operators go through the arithmetic operator mapping.
pub open spec fn parse_equality_rest(toks: Seq<Token>, pos: int, left: ExprModel) -> ExprResult
    decreases toks.len() - pos, 14int,
{
    if is_equality_op(toks, pos) {
        match parse_comparison(toks, pos + 1) {
            Err(e) => Err(e),
            Ok((right, q)) => if out_of_step(toks, pos + 1, q) {
                Err(end_of_input())
            } else {
                match arithmetic_of(toks[pos].token_type) {
                    None => Err(unmapped_equality(toks[pos])),
                    Some(op) => parse_equality_rest(toks, q, bin(left, op, right)),
                }
            },
        }
    } else {
        Ok((left, pos))
    }
}

pub open spec fn parse_comparison(toks: Seq<Token>, pos: int) -> ExprResult
    decreases toks.len() - pos, 13int,
{
    if !in_range(toks, pos) {
        Err(end_of_input())
    } else {
        match parse_addition(toks, pos) {
            Err(e) => Err(e),
            Ok((left, p)) => if out_of_step(toks, pos, p) {
                Err(end_of_input())
            } else {
                parse_comparison_rest(toks, p, left)
            },
        }
    }
}

pub open spec fn is_comparison_op(toks: Seq<Token>, pos: int) -> bool {
    is_kind(toks, pos, TokenType::LesserThan) || is_kind(toks, pos, TokenType::GreaterThan)
        || is_kind(toks, pos, TokenType::LesserThanEqual) || is_kind(
        toks,
        pos,
        TokenType::GreaterThanEqual,
    )
}

pub open spec fn parse_comparison_rest(toks: Seq<Token>, pos: int, left: ExprModel) -> ExprResult
    decreases toks.len() - pos, 12int,
{
    if is_comparison_op(toks, pos) {
        match parse_addition(toks, pos + 1) {
            Err(e) => Err(e),
            Ok((right, q)) => if out_of_step(toks, pos + 1, q) {
                Err(end_of_input())
            } else {
                parse_comparison_rest(
                    toks,
                    q,
                    logic(left, logical_of(toks[pos].token_type)->Some_0, right),
                )
            },
        }
    } else {
        Ok((left, pos))
    }
}

pub open spec fn parse_addition(toks: Seq<Token>, pos: int) -> ExprResult
    decreases toks.len() - pos, 11int,
{
    if !in_range(toks, pos) {
        Err(end_of_input())
    } else {
        match parse_multiplication(toks, pos) {
            Err(e) => Err(e),
            Ok((left, p)) => if out_of_step(toks, pos, p) {
                Err(end_of_input())
            } else {
                parse_addition_rest(toks, p, left)
            },
        }
    }
}

pub open spec fn is_additive_op(toks: Seq<Token>, pos: int) -> bool {
    is_kind(toks, pos, TokenType::Minus) || is_kind(toks, pos, TokenType::Plus)
}

pub open spec fn parse_addition_rest(toks: Seq<Token>, pos: int, left: ExprModel) -> ExprResult
    decreases toks.len() - pos, 10int,
{
    if is_additive_op(toks, pos) {
        match parse_multiplication(toks, pos + 1) {
            Err(e) => Err(e),
            Ok((right, q)) => if out_of_step(toks, pos + 1, q) {
                Err(end_of_input())
            } else {
                parse_addition_rest(
                    toks,
                    q,
                    bin(left, arithmetic_of(toks[pos].token_type)->Some_0, right),
                )
            },
        }
    } else {
        Ok((left, pos))
    }
}

pub open spec fn parse_multiplication(toks: Seq<Token>, pos: int) -> ExprResult
    decreases toks.len() - pos, 9int,
{
    if !in_range(toks, pos) {
        Err(end_of_input())
    } else {
        match parse_unary(toks, pos) {
            Err(e) => Err(e),
            Ok((left, p)) => if out_of_step(toks, pos, p) {
                Err(end_of_input())
            } else {
                parse_multiplication_rest(toks, p, left)
            },
        }
    }
}

pub open spec fn is_multiplicative_op(toks: Seq<Token>, pos: int) -> bool {
    is_kind(toks, pos, TokenType::Multiply) || is_kind(toks, pos, TokenType::Divide) || is_kind(
        toks,
        pos,
        TokenType::Modulo,
    )
}

pub open spec fn parse_multiplication_rest(
    toks: Seq<Token>,
    pos: int,
    left: ExprModel,
) -> ExprResult
    decreases toks.len() - pos, 8int,
{
    if is_multiplicative_op(toks, pos) {
        match parse_unary(toks, pos + 1) {
            Err(e) => Err(e),
            Ok((right, q)) => if out_of_step(toks, pos + 1, q) {
                Err(end_of_input())
            } else {
                parse_multiplication_rest(
                    toks,
                    q,
                    bin(left, arithmetic_of(toks[pos].token_type)->Some_0, right),
                )
            },
        }
    } else {
        Ok((left, pos))
    }
}

/// unary: `-` or `!` before a unary expression, or a call.
pub open spec fn parse_unary(toks: Seq<Token>, pos: int) -> ExprResult
    decreases toks.len() - pos, 7int,
{
    if !in_range(toks, pos) {
        Err(end_of_input())
    } else if is_kind(toks, pos, TokenType::Minus) || is_kind(toks, pos, TokenType::Not) {
        let op = if toks[pos].token_type == TokenType::Minus {
            Operator::Arithmetic(ArithmeticOperator::Minus)
        } else {
            Operator::Logical(LogicalOperator::Not)
        };
        match parse_unary(toks, pos + 1) {
            Err(e) => Err(e),
            Ok((operand, q)) => Ok((ExprModel::Unary(op, Box::new(operand)), q)),
        }
    } else {
        parse_call(toks, pos)
    }
}

pub open spec fn parse_call(toks: Seq<Token>, pos: int) -> ExprResult
    decreases toks.len() - pos, 6int,
{
    if !in_range(toks, pos) {
        Err(end_of_input())
    } else {
        match parse_primary(toks, pos) {
            Err(e) => Err(e),
            Ok((callee, p)) => if out_of_step(toks, pos, p) {
                Err(end_of_input())
            } else {
                parse_call_rest(toks, p, callee)
            },
        }
    }
}

/// The argument lists that follow `callee`, each applied to the call before it.
pub open spec fn parse_call_rest(toks: Seq<Token>, pos: int, callee: ExprModel) -> ExprResult
    decreases toks.len() - pos, 5int,
{
    if is_kind(toks, pos, TokenType::LeftParen) {
        match parse_arguments(toks, pos + 1) {
            Err(e) => Err(e),
            Ok((args, q)) => if out_of_step(toks, pos + 1, q) {
                Err(end_of_input())
            } else {
                parse_call_rest(toks, q, ExprModel::Call(Box::new(callee), args))
            },
        }
    } else {
        Ok((callee, pos))
    }
}

/// The arguments after `(` up to and including the closing `)`.
pub open spec fn parse_arguments(toks: Seq<Token>, pos: int) -> Result<(Seq<ExprModel>, int), ErrModel>
    decreases toks.len() - pos, 23int,
{
    if !in_range(toks, pos) {
        Err(end_of_input())
    } else if is_kind(toks, pos, TokenType::RightParen) {
        Ok((Seq::empty(), pos + 1))
    } else {
        parse_argument_list(toks, pos, Seq::empty())
    }
}

/// Comma-separated expressions after those in `acc`, then `)`.
pub open spec fn parse_argument_list(toks: Seq<Token>, pos: int, acc: Seq<ExprModel>) -> Result<
    (Seq<ExprModel>, int),
    ErrModel,
>
    decreases toks.len() - pos, 22int,
{
    if !in_range(toks, pos) {
        Err(end_of_input())
    } else {
        match parse_assignment(toks, pos) {
            Err(e) => Err(e),
            Ok((arg, q)) => if out_of_step(toks, pos, q) {
                Err(end_of_input())
            } else if is_kind(toks, q, TokenType::Comma) {
                parse_argument_list(toks, q + 1, acc.push(arg))
            } else if is_kind(toks, q, TokenType::RightParen) {
                Ok((acc.push(arg), q + 1))
            } else {
                Err(unclosed_call_at(toks, q))
            },
        }
    }
}

/// primary: a literal token.
pub open spec fn parse_primary(toks: Seq<Token>, pos: int) -> ExprResult {
    if pos < 0 || pos >= toks.len() {
        Err(end_of_input())
    } else {
        match toks[pos].token_type {
            TokenType::Integer(v) => Ok((ExprModel::Literal(crate::ast::Literal::Integer(v)), pos + 1)),
            TokenType::Float(v) => Ok((ExprModel::Literal(crate::ast::Literal::Float(v)), pos + 1)),
            TokenType::Boolean(v) => Ok((ExprModel::Literal(crate::ast::Literal::Boolean(v)), pos + 1)),
            t => Err(expected_expression(t)),
        }
    }
}

pub type StatementResult = Result<(StatementModel, int), ErrModel>;

/// statement: an empty line, a return statement, or an expression and its line end.
pub open spec fn parse_statement(toks: Seq<Token>, pos: int) -> StatementResult {
    if is_kind(toks, pos, TokenType::EndOfLine) {
        Ok((StatementModel::Empty, pos + 1))
    } else if is_kind(toks, pos, TokenType::Return) {
        parse_return(toks, pos + 1)
    } else {
        parse_expression_statement(toks, pos)
    }
}

/// After `return`: nothing before a line end, else one expression.
pub open spec fn parse_return(toks: Seq<Token>, pos: int) -> StatementResult {
    if is_kind(toks, pos, TokenType::EndOfLine) {
        Ok((StatementModel::Return(None), pos + 1))
    } else {
        match parse_assignment(toks, pos) {
            Err(e) => Err(e),
            Ok((e, q)) => Ok((StatementModel::Return(Some(e)), q)),
        }
    }
}

pub open spec fn parse_expression_statement(toks: Seq<Token>, pos: int) -> StatementResult {
    match parse_assignment(toks, pos) {
        Err(e) => Err(e),
        Ok((e, q)) => if is_kind(toks, q, TokenType::EndOfLine) {
            Ok((StatementModel::Expression(e), q + 1))
        } else {
            Err(mismatch_at(toks, q, TokenType::EndOfLine))
        },
    }
}

/// The statements from `pos` to the end of input, after those in `acc`.
pub open spec fn parse_statements(toks: Seq<Token>, pos: int, acc: Seq<StatementModel>) -> Result<
    Seq<StatementModel>,
    ErrModel,
>
    decreases toks.len() - pos,
{
    if at_end(toks, pos) {
        Ok(acc)
    } else {
        match parse_statement(toks, pos) {
            Err(e) => Err(e),
            Ok((s, q)) => if q <= pos || q > toks.len() {
                Err(end_of_input())
            } else {
                parse_statements(toks, q, acc.push(s))
            },
        }
    }
}

/// The statements of a whole token sequence.
pub open spec fn parse_program(toks: Seq<Token>) -> Result<Seq<StatementModel>, ErrModel> {
    parse_statements(toks, 0, Seq::empty())
}

} // verus!
