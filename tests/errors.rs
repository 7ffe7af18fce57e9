use another_interpreted_language::errors::{
    extract_token_mismatch, first_word_of, DynamicError, ErrorList, ErrorReport, ParserErrors,
    StageReport, TokenMismatch, ErrorWithPosition,
};
use another_interpreted_language::parser::Parser;
use another_interpreted_language::token::{Position, Token, TokenType};

fn mismatch() -> TokenMismatch {
    TokenMismatch::from_str(
        "Expected token of type EndOfLine, found EndOfFile",
        TokenType::EndOfLine,
        TokenType::EndOfFile,
        Position { line: 3, col: 9 },
    )
}

#[test]
fn a_parser_mismatch_is_recovered_from_the_report() {
    let toks = vec![
        Token::new(TokenType::Integer(1), 2, 1),
        Token::new(TokenType::Plus, 2, 3),
        Token::new(TokenType::Integer(1), 2, 5),
        Token::new(TokenType::EndOfFile, 2, 6),
    ];
    let mut parser = Parser::from(&toks);
    let err = parser.parse().unwrap_err();
    let report = err.into_report();
    let m = extract_token_mismatch(&report).expect("a token mismatch");
    assert_eq!(m.expected, TokenType::EndOfLine);
    assert_eq!(m.found, TokenType::EndOfFile);
    assert_eq!(m.position, Position { line: 2, col: 6 });
    assert_eq!(m.position(), Position { line: 2, col: 6 });
}

#[test]
fn extraction_returns_the_wrapped_mismatch() {
    let report = ParserErrors::from_error(DynamicError::TokenMismatch(mismatch())).into_report();
    assert_eq!(extract_token_mismatch(&report), Some(mismatch()));
}

#[test]
fn extraction_ignores_the_labelled_case() {
    let report = ParserErrors::TokenMismatch(mismatch()).into_report();
    assert_eq!(extract_token_mismatch(&report), None);
}

#[test]
fn extraction_ignores_free_text_and_other_stages() {
    let text = ParserErrors::from_str("oops").into_report();
    assert_eq!(extract_token_mismatch(&text), None);
    let message = ParserErrors::from_error(DynamicError::Message("bad".to_string())).into_report();
    assert_eq!(extract_token_mismatch(&message), None);
    let other = ErrorReport::Stage(StageReport {
        list_name: "LexerErrors".to_string(),
        error_name: "None".to_string(),
        text: "bad char".to_string(),
    });
    assert_eq!(extract_token_mismatch(&other), None);
}

#[test]
fn converting_back_from_a_report_keeps_only_the_name() {
    let report = ParserErrors::from_error(DynamicError::TokenMismatch(mismatch())).into_report();
    assert_eq!(
        ParserErrors::from_report(&report),
        ParserErrors::String("ParserErrors".to_string())
    );
    let other = ErrorReport::Stage(StageReport {
        list_name: "LexerErrors".to_string(),
        error_name: "None".to_string(),
        text: "bad char".to_string(),
    });
    assert_eq!(
        ParserErrors::from_report(&other),
        ParserErrors::String("LexerErrors".to_string())
    );
}

#[test]
fn names_of_the_parser_aggregate() {
    let text = ParserErrors::from_str("oops");
    assert_eq!(text.list_name(), "ParserErrors");
    assert_eq!(text.error_name(), "None");
    let wrapped = ParserErrors::from_error(DynamicError::TokenMismatch(mismatch()));
    assert_eq!(wrapped.error_name(), "TokenMismatch");
    let message = ParserErrors::from_error(DynamicError::Message(
        "Invalid assignment target".to_string(),
    ));
    assert_eq!(message.error_name(), "\"Invalid");
    assert_eq!(ParserErrors::TokenMismatch(mismatch()).error_name(), "ParserErrors");
}

#[test]
fn printing_strips_quotes_from_wrapped_text_only() {
    assert_eq!(ParserErrors::from_str("oops").print(), "oops");
    let message = ParserErrors::from_error(DynamicError::Message("bad thing".to_string()));
    assert_eq!(message.print(), "bad thing");
    let wrapped = ParserErrors::from_error(DynamicError::TokenMismatch(mismatch()));
    let expected = "TokenMismatch {\n    err: \"Expected token of type EndOfLine, found EndOfFile\",\n    expected: EndOfLine,\n    found: EndOfFile,\n}";
    assert_eq!(wrapped.print(), expected);
    assert_eq!(ParserErrors::TokenMismatch(mismatch()).print(), expected);
}

#[test]
fn a_report_renders_as_its_aggregate() {
    let p = ParserErrors::from_error(DynamicError::Message("bad thing".to_string()));
    let report = ParserErrors::from_error(DynamicError::Message("bad thing".to_string())).into_report();
    assert_eq!(report.print(), p.print());
    assert_eq!(report.error_name(), p.error_name());
    assert_eq!(report.list_name(), "ParserErrors");
    let other = ErrorReport::Stage(StageReport {
        list_name: "EvaluatorErrors".to_string(),
        error_name: "DivideByZero".to_string(),
        text: "division by zero".to_string(),
    });
    assert_eq!(other.list_name(), "EvaluatorErrors");
    assert_eq!(other.error_name(), "DivideByZero");
    assert_eq!(other.print(), "division by zero");
}

#[test]
fn first_word_skips_leading_whitespace() {
    assert_eq!(first_word_of("  alpha beta"), "alpha");
    assert_eq!(first_word_of("one"), "one");
    assert_eq!(first_word_of("   "), "");
    assert_eq!(first_word_of(""), "");
    assert_eq!(first_word_of("a\nb"), "a");
}

#[test]
fn mismatch_names_and_detail() {
    let m = mismatch();
    assert_eq!(m.get_name(), "TokenMismatch");
    assert_eq!(
        DynamicError::Message("x y".to_string()).detailed(),
        "\"x y\""
    );
    assert!(m.detailed().starts_with("TokenMismatch {\n    err: "));
    assert_eq!(TokenType::GreaterThanEqual.name(), "GreaterThanEqual");
    assert_eq!(TokenType::Integer(5).name(), "Integer");
}
