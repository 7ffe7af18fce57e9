use vstd::prelude::*;
use crate::ast::{
    models, op_token_to_arithmetic, op_token_to_logical, lemma_models_push, ArithmeticOperator,
    ExprModel, Expression, Literal, LogicalOperator, Node, Operator, StatementModel,
};
use crate::errors::{mismatch_message, DynamicError, ErrModel, ParserErrors, TokenMismatch};
use crate::grammar::{
    at_end, is_kind, mismatch_at, parse_addition, parse_addition_rest, parse_and, parse_and_rest,
    parse_argument_list, parse_arguments, parse_assignment, parse_call, parse_call_rest,
    parse_comparison, parse_comparison_rest, parse_equality, parse_equality_rest,
    parse_expression_statement, parse_multiplication, parse_multiplication_rest, parse_or,
    is_comparison_op, parse_or_rest, parse_primary, parse_return, parse_statement, parse_statements, parse_unary,
    unclosed_call_at, ExprResult, StatementResult,
};
use crate::token::{Token, TokenType};

verus! {

/// How an expression parse that ended at `cur` agrees with the grammar's answer `s`.
pub open spec fn expr_agrees(r: Result<Expression, DynamicError>, cur: int, s: ExprResult) -> bool {
    match (r, s) {
        (Ok(e), Ok((m, q))) => e.model() == m && q == cur,
        (Err(e), Err(m)) => e.model() == m,
        _ => false,
    }
}

/// How a statement parse that ended at `cur` agrees with the grammar's answer `s`.
pub open spec fn statement_agrees(r: Result<Node, DynamicError>, cur: int, s: StatementResult) -> bool {
    match (r, s) {
        (Ok(n), Ok((m, q))) => n.statement_model() == Some(m) && q == cur,
        (Err(e), Err(m)) => e.model() == m,
        _ => false,
    }
}

/// The nodes of `v` are, in order, the statements of `s`.
pub open spec fn statements_are(v: Seq<Node>, s: Seq<StatementModel>) -> bool {
    v.len() == s.len() && forall|i: int| 0 <= i < s.len() ==> #[trigger] v[i].statement_model() == Some(s[i])
}

/// How the result of a whole parse agrees with the grammar's answer `s`.
pub open spec fn program_agrees(r: Result<Node, ParserErrors>, s: Result<Seq<StatementModel>, ErrModel>) -> bool {
    match (r, s) {
        (Ok(Node::Program(v)), Ok(stmts)) => statements_are(v@, stmts),
        (Err(ParserErrors::Error(e)), Err(m)) => e.model() == m,
        _ => false,
    }
}

/// A recursive-descent parser over a token sequence, with a cursor that only
/// moves forward.
pub struct Parser<'a> {
    pub tokens: &'a Vec<Token>,
    current: usize,
}

impl<'a> Parser<'a> {
    pub closed spec fn toks(&self) -> Seq<Token> {
        self.tokens@
    }

    /// The index of the token under the cursor.
    pub closed spec fn cursor(&self) -> int {
        self.current as int
    }

    pub closed spec fn wf(&self) -> bool {
        self.current <= self.tokens@.len()
    }

    /// `after` reads the same tokens, with the cursor at or past this one's.
    pub open spec fn stepped_to(&self, after: &Self) -> bool {
        &&& after.wf()
        &&& after.toks() == self.toks()
        &&& self.cursor() <= after.cursor()
    }

    pub fn from(tokens: &'a Vec<Token>) -> (r: Self)
        ensures
            r.toks() == tokens@,
            r.cursor() == 0,
            r.wf(),
    {
        Parser { tokens, current: 0 }
    }

    /// Parses the whole token sequence into a program, or fails with the first error.
    pub fn parse(&mut self) -> (r: Result<Node, ParserErrors>)
        requires
            old(self).wf(),
        ensures
            old(self).stepped_to(&*final(self)),
            program_agrees(r, parse_statements(old(self).toks(), old(self).cursor(), Seq::empty())),
    {
        match self.parse_statements() {
            Ok(statements) => Ok(Node::Program(statements)),
            Err(e) => Err(ParserErrors::Error(e)),
        }
    }

    fn parse_statements(&mut self) -> (r: Result<Vec<Node>, DynamicError>)
        requires
            old(self).wf(),
        ensures
            old(self).stepped_to(&*final(self)),
            match (r, parse_statements(old(self).toks(), old(self).cursor(), Seq::empty())) {
                (Ok(v), Ok(s)) => statements_are(v@, s),
                (Err(e), Err(m)) => e.model() == m,
                _ => false,
            },
    {
        let ghost start = self.current as int;
        let ghost toks = self.toks();
        let mut statements: Vec<Node> = Vec::new();
        let ghost mut acc: Seq<StatementModel> = Seq::empty();
        while !self.is_at_end()
            invariant
                self.wf(),
                self.toks() == toks,
                toks == old(self).toks(),
                start <= self.current,
                start == old(self).current,
                statements_are(statements@, acc),
                parse_statements(toks, start, Seq::empty()) == parse_statements(
                    toks,
                    self.current as int,
                    acc,
                ),
            decreases self.tokens@.len() - self.current,
        {
            let ghost before = self.current as int;
            let statement = match self.declaration() {
                Ok(s) => s,
                Err(e) => return Err(e),
            };
            proof {
                let m = statement.statement_model()->Some_0;
                acc = acc.push(m);
            }
            statements.push(statement);
            assert(statements_are(statements@, acc));
        }
        Ok(statements)
    }

    fn declaration(&mut self) -> (r: Result<Node, DynamicError>)
        requires
            old(self).wf(),
            !at_end(old(self).toks(), old(self).cursor()),
        ensures
            old(self).stepped_to(&*final(self)),
            r is Ok ==> final(self).cursor() > old(self).cursor(),
            statement_agrees(r, final(self).cursor(), parse_statement(old(self).toks(), old(self).cursor())),
    {
        self.statement()
    }

    fn statement(&mut self) -> (r: Result<Node, DynamicError>)
        requires
            old(self).wf(),
            !at_end(old(self).toks(), old(self).cursor()),
        ensures
            old(self).stepped_to(&*final(self)),
            r is Ok ==> final(self).cursor() > old(self).cursor(),
            statement_agrees(r, final(self).cursor(), parse_statement(old(self).toks(), old(self).cursor())),
    {
        if self.matches(TokenType::EndOfLine) {
            return Ok(Node::EmptyStatement);
        }
        if self.matches(TokenType::Return) {
            return self.return_statement();
        }
        match self.expression_statement() {
            Ok(e) => Ok(Node::ExpressionStatement(e)),
            Err(e) => Err(e),
        }
    }

    fn return_statement(&mut self) -> (r: Result<Node, DynamicError>)
        requires
            old(self).wf(),
        ensures
            old(self).stepped_to(&*final(self)),
            statement_agrees(r, final(self).cursor(), parse_return(old(self).toks(), old(self).cursor())),
    {
        let return_value = if !self.matches(TokenType::EndOfLine) {
            match self.expression() {
                Ok(e) => Some(e),
                Err(e) => return Err(e),
            }
        } else {
            None
        };
        Ok(Node::ReturnStatement(return_value))
    }

    fn expression_statement(&mut self) -> (r: Result<Expression, DynamicError>)
        requires
            old(self).wf(),
        ensures
            old(self).stepped_to(&*final(self)),
            r is Ok ==> final(self).cursor() > old(self).cursor(),
            match (r, parse_expression_statement(old(self).toks(), old(self).cursor())) {
                (Ok(e), Ok((StatementModel::Expression(m), q))) => e.model() == m && q == final(self).cursor(),
                (Err(e), Err(m)) => e.model() == m,
                _ => false,
            },
    {
        let expression = match self.expression() {
            Ok(e) => e,
            Err(e) => return Err(e),
        };
        match self.consume(TokenType::EndOfLine) {
            Ok(_) => Ok(expression),
            Err(e) => Err(e),
        }
    }

    fn expression(&mut self) -> (r: Result<Expression, DynamicError>)
        requires
            old(self).wf(),
        ensures
            old(self).stepped_to(&*final(self)),
            expr_agrees(r, final(self).cursor(), parse_assignment(old(self).toks(), old(self).cursor())),
        decreases old(self).tokens@.len() - old(self).current, 21int,
    {
        self.assignment()
    }

    #[verifier::rlimit(40)]
    fn assignment(&mut self) -> (r: Result<Expression, DynamicError>)
        requires
            old(self).wf(),
        ensures
            old(self).stepped_to(&*final(self)),
            expr_agrees(r, final(self).cursor(), parse_assignment(old(self).toks(), old(self).cursor())),
        decreases old(self).tokens@.len() - old(self).current, 20int,
    {
        let ghost toks = self.toks();
        let ghost start = self.current as int;
        let expression = match self.or() {
            Ok(e) => e,
            Err(e) => return Err(e),
        };
        let ghost p = self.current as int;
        assert(parse_or(toks, start) == Ok::<(ExprModel, int), ErrModel>((expression.model(), p)));
        if self.matches(TokenType::Assign) {
            let value = match self.assignment() {
                Ok(e) => e,
                Err(e) => return Err(e),
            };
            if let Expression::Variable(variable) = expression {
                return Ok(Expression::Assignment(variable, Box::new(value)));
            }
            assert(!(expression.model() is Variable));
            return Err(DynamicError::message("Invalid assignment target"));
        }
        Ok(expression)
    }
}

} // verus!

verus! {

impl<'a> Parser<'a> {
    fn or(&mut self) -> (r: Result<Expression, DynamicError>)
        requires
            old(self).wf(),
        ensures
            old(self).stepped_to(&*final(self)),
            expr_agrees(r, final(self).cursor(), parse_or(old(self).toks(), old(self).cursor())),
        decreases old(self).tokens@.len() - old(self).current, 19int,
    {
        let ghost start = self.current as int;
        let ghost toks = self.toks();
        let mut expression = match self.and() {
            Ok(e) => e,
            Err(e) => return Err(e),
        };
        loop
            invariant
                self.wf(),
                self.toks() == toks,
                toks == old(self).toks(),
                start <= self.current,
                start == old(self).current,
                parse_or(toks, start) == parse_or_rest(toks, self.current as int, expression.model()),
            decreases self.tokens@.len() - self.current,
        {
            if !self.matches(TokenType::Or) {
                return Ok(expression);
            }
            let right = match self.and() {
                Ok(e) => e,
                Err(e) => return Err(e),
            };
            expression = Expression::LogicalExpression(
                Box::new(expression),
                LogicalOperator::Or,
                Box::new(right),
            );
        }
    }

    fn and(&mut self) -> (r: Result<Expression, DynamicError>)
        requires
            old(self).wf(),
        ensures
            old(self).stepped_to(&*final(self)),
            expr_agrees(r, final(self).cursor(), parse_and(old(self).toks(), old(self).cursor())),
        decreases old(self).tokens@.len() - old(self).current, 17int,
    {
        let ghost start = self.current as int;
        let ghost toks = self.toks();
        let mut expression = match self.equality() {
            Ok(e) => e,
            Err(e) => return Err(e),
        };
        loop
            invariant
                self.wf(),
                self.toks() == toks,
                toks == old(self).toks(),
                start <= self.current,
                start == old(self).current,
                parse_and(toks, start) == parse_and_rest(toks, self.current as int, expression.model()),
            decreases self.tokens@.len() - self.current,
        {
            if !self.matches(TokenType::And) {
                return Ok(expression);
            }
            let right = match self.equality() {
                Ok(e) => e,
                Err(e) => return Err(e),
            };
            expression = Expression::LogicalExpression(
                Box::new(expression),
                LogicalOperator::And,
                Box::new(right),
            );
        }
    }

    #[verifier::rlimit(40)]
    fn equality(&mut self) -> (r: Result<Expression, DynamicError>)
        requires
            old(self).wf(),
        ensures
            old(self).stepped_to(&*final(self)),
            expr_agrees(r, final(self).cursor(), parse_equality(old(self).toks(), old(self).cursor())),
        decreases old(self).tokens@.len() - old(self).current, 15int,
    {
        let ghost start = self.current as int;
        let ghost toks = self.toks();
        let mut expression = match self.comparison() {
            Ok(e) => e,
            Err(e) => return Err(e),
        };
        loop
            invariant
                self.wf(),
                self.toks() == toks,
                toks == old(self).toks(),
                start <= self.current,
                start == old(self).current,
                parse_equality(toks, start) == parse_equality_rest(
                    toks,
                    self.current as int,
                    expression.model(),
                ),
            decreases self.tokens@.len() - self.current,
        {
            let ghost at = self.current as int;
            let ops = vec![TokenType::Equal, TokenType::NotEqual];
            proof {
                assert(ops@[0] == TokenType::Equal);
                assert(ops@[1] == TokenType::NotEqual);
            }
            if !self.match_one_of(ops) {
                return Ok(expression);
            }
            let operator = match self.previous() {
                Some(t) => *t,
                None => return Err(DynamicError::message("Unexpected end of input")),
            };
            let right = match self.comparison() {
                Ok(e) => e,
                Err(e) => return Err(e),
            };
            match op_token_to_arithmetic(&operator) {
                None => {
                    let err = mismatch_message(&TokenType::Equal, &operator.token_type);
                    return Err(
                        DynamicError::TokenMismatch(
                            TokenMismatch::from(
                                err,
                                TokenType::Equal,
                                operator.token_type,
                                operator.position,
                            ),
                        ),
                    );
                },
                Some(op) => {
                    expression = Expression::BinaryExpression(
                        Box::new(expression),
                        op,
                        Box::new(right),
                    );
                },
            }
        }
    }

    #[verifier::rlimit(40)]
    fn comparison(&mut self) -> (r: Result<Expression, DynamicError>)
        requires
            old(self).wf(),
        ensures
            old(self).stepped_to(&*final(self)),
            expr_agrees(r, final(self).cursor(), parse_comparison(old(self).toks(), old(self).cursor())),
        decreases old(self).tokens@.len() - old(self).current, 13int,
    {
        let ghost start = self.current as int;
        let ghost toks = self.toks();
        let mut expression = match self.addition() {
            Ok(e) => e,
            Err(e) => return Err(e),
        };
        loop
            invariant
                self.wf(),
                self.toks() == toks,
                toks == old(self).toks(),
                start <= self.current,
                start == old(self).current,
                parse_comparison(toks, start) == parse_comparison_rest(
                    toks,
                    self.current as int,
                    expression.model(),
                ),
            decreases self.tokens@.len() - self.current,
        {
            let ops = vec![
                TokenType::LesserThan,
                TokenType::GreaterThan,
                TokenType::LesserThanEqual,
                TokenType::GreaterThanEqual,
            ];
            proof {
                assert(ops@[0] == TokenType::LesserThan);
                assert(ops@[1] == TokenType::GreaterThan);
                assert(ops@[2] == TokenType::LesserThanEqual);
                assert(ops@[3] == TokenType::GreaterThanEqual);
            }
            if !self.match_one_of(ops) {
                return Ok(expression);
            }
            let operator = match self.previous() {
                Some(t) => *t,
                None => return Err(DynamicError::message("Unexpected end of input")),
            };
            assert(is_comparison_op(toks, self.current - 1));
            assert(operator == toks[self.current - 1]);
            let right = match self.addition() {
                Ok(e) => e,
                Err(e) => return Err(e),
            };
            let comparison_operator = match op_token_to_logical(&operator) {
                Some(op) => op,
                None => return Err(DynamicError::message("Unknown comparison operator")),
            };
            expression = Expression::LogicalExpression(
                Box::new(expression),
                comparison_operator,
                Box::new(right),
            );
        }
    }

    fn addition(&mut self) -> (r: Result<Expression, DynamicError>)
        requires
            old(self).wf(),
        ensures
            old(self).stepped_to(&*final(self)),
            expr_agrees(r, final(self).cursor(), parse_addition(old(self).toks(), old(self).cursor())),
        decreases old(self).tokens@.len() - old(self).current, 11int,
    {
        let ghost start = self.current as int;
        let ghost toks = self.toks();
        let mut expression = match self.multiplication() {
            Ok(e) => e,
            Err(e) => return Err(e),
        };
        loop
            invariant
                self.wf(),
                self.toks() == toks,
                toks == old(self).toks(),
                start <= self.current,
                start == old(self).current,
                parse_addition(toks, start) == parse_addition_rest(
                    toks,
                    self.current as int,
                    expression.model(),
                ),
            decreases self.tokens@.len() - self.current,
        {
            let ops = vec![TokenType::Minus, TokenType::Plus];
            proof {
                assert(ops@[0] == TokenType::Minus);
                assert(ops@[1] == TokenType::Plus);
            }
            if !self.match_one_of(ops) {
                return Ok(expression);
            }
            let operator = match self.previous() {
                Some(t) => *t,
                None => return Err(DynamicError::message("Unexpected end of input")),
            };
            let right = match self.multiplication() {
                Ok(e) => e,
                Err(e) => return Err(e),
            };
            let arithmetic_operator = match op_token_to_arithmetic(&operator) {
                Some(op) => op,
                None => return Err(DynamicError::message("Unknown additive operator")),
            };
            expression = Expression::BinaryExpression(
                Box::new(expression),
                arithmetic_operator,
                Box::new(right),
            );
        }
    }

    fn multiplication(&mut self) -> (r: Result<Expression, DynamicError>)
        requires
            old(self).wf(),
        ensures
            old(self).stepped_to(&*final(self)),
            expr_agrees(r, final(self).cursor(), parse_multiplication(old(self).toks(), old(self).cursor())),
        decreases old(self).tokens@.len() - old(self).current, 9int,
    {
        let ghost start = self.current as int;
        let ghost toks = self.toks();
        let mut expression = match self.unary() {
            Ok(e) => e,
            Err(e) => return Err(e),
        };
        loop
            invariant
                self.wf(),
                self.toks() == toks,
                toks == old(self).toks(),
                start <= self.current,
                start == old(self).current,
                parse_multiplication(toks, start) == parse_multiplication_rest(
                    toks,
                    self.current as int,
                    expression.model(),
                ),
            decreases self.tokens@.len() - self.current,
        {
            let ops = vec![TokenType::Multiply, TokenType::Divide, TokenType::Modulo];
            proof {
                assert(ops@[0] == TokenType::Multiply);
                assert(ops@[1] == TokenType::Divide);
                assert(ops@[2] == TokenType::Modulo);
            }
            if !self.match_one_of(ops) {
                return Ok(expression);
            }
            let operator = match self.previous() {
                Some(t) => *t,
                None => return Err(DynamicError::message("Unexpected end of input")),
            };
            let right = match self.unary() {
                Ok(e) => e,
                Err(e) => return Err(e),
            };
            let arithmetic_operator = match op_token_to_arithmetic(&operator) {
                Some(op) => op,
                None => return Err(DynamicError::message("Unknown multiplicative operator")),
            };
            expression = Expression::BinaryExpression(
                Box::new(expression),
                arithmetic_operator,
                Box::new(right),
            );
        }
    }

    fn unary(&mut self) -> (r: Result<Expression, DynamicError>)
        requires
            old(self).wf(),
        ensures
            old(self).stepped_to(&*final(self)),
            expr_agrees(r, final(self).cursor(), parse_unary(old(self).toks(), old(self).cursor())),
        decreases old(self).tokens@.len() - old(self).current, 7int,
    {
        let ops = vec![TokenType::Minus, TokenType::Not];
        proof {
            assert(ops@[0] == TokenType::Minus);
            assert(ops@[1] == TokenType::Not);
        }
        if self.match_one_of(ops) {
            let operator = match self.previous() {
                Some(t) => *t,
                None => return Err(DynamicError::message("Unexpected end of input")),
            };
            let right = match self.unary() {
                Ok(e) => e,
                Err(e) => return Err(e),
            };
            let unary_operator = match operator.token_type {
                TokenType::Minus => Operator::Arithmetic(ArithmeticOperator::Minus),
                TokenType::Not => Operator::Logical(LogicalOperator::Not),
                _ => return Err(DynamicError::message("Unknown unary operator")),
            };
            return Ok(Expression::UnaryExpression(unary_operator, Box::new(right)));
        }
        self.call()
    }

    fn call(&mut self) -> (r: Result<Expression, DynamicError>)
        requires
            old(self).wf(),
        ensures
            old(self).stepped_to(&*final(self)),
            expr_agrees(r, final(self).cursor(), parse_call(old(self).toks(), old(self).cursor())),
        decreases old(self).tokens@.len() - old(self).current, 6int,
    {
        let ghost start = self.current as int;
        let ghost toks = self.toks();
        let mut expression = match self.primary() {
            Ok(e) => e,
            Err(e) => return Err(e),
        };
        loop
            invariant
                self.wf(),
                self.toks() == toks,
                toks == old(self).toks(),
                start <= self.current,
                start == old(self).current,
                parse_call(toks, start) == parse_call_rest(toks, self.current as int, expression.model()),
            decreases self.tokens@.len() - self.current,
        {
            if !self.matches(TokenType::LeftParen) {
                return Ok(expression);
            }
            expression = match self.finish_call(expression) {
                Ok(e) => e,
                Err(e) => return Err(e),
            };
        }
    }

    /// The arguments of a call whose `(` was just consumed, and its `)`.
    fn finish_call(&mut self, callee: Expression) -> (r: Result<Expression, DynamicError>)
        requires
            old(self).wf(),
        ensures
            old(self).stepped_to(&*final(self)),
            match (r, parse_arguments(old(self).toks(), old(self).cursor())) {
                (Ok(e), Ok((args, q))) => e.model() == ExprModel::Call(Box::new(callee.model()), args)
                    && q == final(self).cursor(),
                (Err(e), Err(m)) => e.model() == m,
                _ => false,
            },
        decreases old(self).tokens@.len() - old(self).current, 23int,
    {
        let ghost start = self.current as int;
        let ghost toks = self.toks();
        let mut arguments: Vec<Expression> = Vec::new();
        let mut more = !self.check(TokenType::RightParen);
        while more
            invariant
                self.wf(),
                self.toks() == toks,
                toks == old(self).toks(),
                start <= self.current,
                start == old(self).current,
                more ==> parse_arguments(toks, start) == parse_argument_list(
                    toks,
                    self.current as int,
                    models(arguments@),
                ),
                !more ==> parse_arguments(toks, start) == (if is_kind(
                    toks,
                    self.current as int,
                    TokenType::RightParen,
                ) {
                    Ok((models(arguments@), self.current + 1))
                } else {
                    Err(unclosed_call_at(toks, self.current as int))
                }),
            decreases 2 * (self.tokens@.len() - self.current) + if more {
                1int
            } else {
                0int
            },
        {
            let argument = match self.expression() {
                Ok(e) => e,
                Err(e) => return Err(e),
            };
            proof {
                lemma_models_push(arguments@, argument);
            }
            arguments.push(argument);
            if !self.matches(TokenType::Comma) {
                more = false;
            }
        }
        match self.consume(TokenType::RightParen) {
            Ok(_) => {},
            Err(_) => {
                let found = match self.peek() {
                    Some(t) => *t,
                    None => return Err(DynamicError::message("Unexpected end of input")),
                };
                return Err(
                    DynamicError::TokenMismatch(
                        TokenMismatch::from_str(
                            "Expected ) after arguments",
                            TokenType::RightParen,
                            found.token_type,
                            found.position,
                        ),
                    ),
                );
            },
        }
        Ok(Expression::CallExpression(Box::new(callee), arguments))
    }

    fn primary(&mut self) -> (r: Result<Expression, DynamicError>)
        requires
            old(self).wf(),
        ensures
            old(self).stepped_to(&*final(self)),
            expr_agrees(r, final(self).cursor(), parse_primary(old(self).toks(), old(self).cursor())),
    {
        let token = match self.peek() {
            Some(t) => t.token_type,
            None => return Err(DynamicError::message("Unexpected end of input")),
        };
        let expression = match token {
            TokenType::Integer(value) => Expression::Literal(Literal::Integer(value)),
            TokenType::Float(value) => Expression::Literal(Literal::Float(value)),
            TokenType::Boolean(value) => Expression::Literal(Literal::Boolean(value)),
            _ => {
                let text = String::from_str("Expected expression, received '");
                let name = token.name();
                let text = text.concat(name.as_str());
                return Err(DynamicError::Message(text.concat("'")));
            },
        };
        self.advance();
        Ok(expression)
    }
}

} // verus!

verus! {

impl<'a> Parser<'a> {
    /// Moves past a token of kind `token`, or fails naming it as expected.
    fn consume(&mut self, token: TokenType) -> (r: Result<Token, DynamicError>)
        requires
            old(self).wf(),
        ensures
            final(self).wf(),
            final(self).toks() == old(self).toks(),
            match r {
                Ok(t) => is_kind(old(self).toks(), old(self).cursor(), token) && t == old(self).toks()[old(self).cursor()] && final(self).cursor() == old(self).cursor() + 1,
                Err(e) => !is_kind(old(self).toks(), old(self).cursor(), token) && e.model()
                    == mismatch_at(old(self).toks(), old(self).cursor(), token) && final(self).cursor()
                    == old(self).cursor(),
            },
    {
        if self.check(token) {
            let t = self.tokens[self.current];
            self.advance();
            return Ok(t);
        }
        let found = match self.peek() {
            Some(t) => *t,
            None => return Err(DynamicError::message("Unexpected end of input")),
        };
        let err = mismatch_message(&token, &found.token_type);
        Err(DynamicError::TokenMismatch(TokenMismatch::from(err, token, found.token_type, found.position)))
    }

    /// Moves past the current token if it has one of the given kinds.
    fn match_one_of(&mut self, tokens: Vec<TokenType>) -> (r: bool)
        requires
            old(self).wf(),
        ensures
            final(self).wf(),
            final(self).toks() == old(self).toks(),
            r == exists|i: int|
                0 <= i < tokens@.len() && #[trigger] is_kind(old(self).toks(), old(self).cursor(), tokens@[i]),
            final(self).cursor() == if r {
                old(self).cursor() + 1
            } else {
                old(self).cursor()
            },
    {
        let mut i: usize = 0;
        while i < tokens.len()
            invariant
                self.wf(),
                self.toks() == old(self).toks(),
                self.current == old(self).current,
                i <= tokens@.len(),
                forall|j: int| 0 <= j < i ==> !#[trigger] is_kind(self.toks(), self.current as int, tokens@[j]),
            decreases tokens.len() - i,
        {
            if self.matches(tokens[i]) {
                assert(is_kind(old(self).toks(), old(self).cursor(), tokens@[i as int]));
                return true;
            }
            i += 1;
        }
        false
    }

    /// Moves past the current token if it has kind `token`.
    fn matches(&mut self, token: TokenType) -> (r: bool)
        requires
            old(self).wf(),
        ensures
            final(self).wf(),
            final(self).toks() == old(self).toks(),
            r == is_kind(old(self).toks(), old(self).cursor(), token),
            final(self).cursor() == if r {
                old(self).cursor() + 1
            } else {
                old(self).cursor()
            },
    {
        if self.check(token) {
            self.advance();
            return true;
        }
        false
    }

    fn check(&self, token: TokenType) -> (r: bool)
        requires
            self.wf(),
        ensures
            r == is_kind(self.toks(), self.cursor(), token),
    {
        if self.is_at_end() {
            return false;
        }
        match self.peek() {
            Some(peek) => peek.token_type == token,
            None => false,
        }
    }

    fn advance(&mut self) -> (r: Option<&'a Token>)
        requires
            old(self).wf(),
        ensures
            final(self).wf(),
            final(self).toks() == old(self).toks(),
            final(self).cursor() == if at_end(old(self).toks(), old(self).cursor()) {
                old(self).cursor()
            } else {
                old(self).cursor() + 1
            },
            r == (if 1 <= final(self).cursor() {
                Some(&final(self).toks()[final(self).cursor() - 1])
            } else {
                None
            }),
    {
        if !self.is_at_end() && self.current < self.tokens.len() {
            self.current += 1;
        }
        self.previous()
    }

    fn is_at_end(&self) -> (r: bool)
        requires
            self.wf(),
        ensures
            r == at_end(self.toks(), self.cursor()),
    {
        match self.peek() {
            Some(t) => t.token_type == TokenType::EndOfFile,
            None => true,
        }
    }

    fn peek(&self) -> (r: Option<&'a Token>)
        requires
            self.wf(),
        ensures
            r == (if self.cursor() < self.toks().len() {
                Some(&self.toks()[self.cursor()])
            } else {
                None
            }),
    {
        if self.current < self.tokens.len() {
            Some(&self.tokens[self.current])
        } else {
            None
        }
    }

    fn previous(&self) -> (r: Option<&'a Token>)
        requires
            self.wf(),
        ensures
            r == (if 1 <= self.cursor() {
                Some(&self.toks()[self.cursor() - 1])
            } else {
                None
            }),
    {
        if self.current >= 1 {
            Some(&self.tokens[self.current - 1])
        } else {
            None
        }
    }
}

} // verus!
