//! Properties that hold across the parser and the error aggregates.
use vstd::prelude::*;
use crate::ast::{arithmetic_of, ExprModel, Node, StatementModel};
use crate::errors::{
    carried_mismatch, DynamicError, ErrModel, ErrorList, ErrorReport, ParserErrors,
    TokenMismatch,
};
use crate::grammar::{
    at_end, is_equality_op, parse_comparison, parse_equality_rest, parse_program, parse_statement,
    parse_statements, unmapped_equality,
};
use crate::parser::program_agrees;
use crate::token::{Token, TokenType};

verus! {

/// A token sequence that holds one statement and then ends parses to a
/// program of exactly that statement.
pub proof fn lemma_single_statement_program(toks: Seq<Token>, s: StatementModel, q: int)
    requires
        !at_end(toks, 0),
        parse_statement(toks, 0) == Ok::<(StatementModel, int), ErrModel>((s, q)),
        0 < q <= toks.len(),
        at_end(toks, q),
    ensures
        parse_program(toks) == Ok::<Seq<StatementModel>, ErrModel>(seq![s]),
{
    assert(Seq::<StatementModel>::empty().push(s) =~= seq![s]);
    assert(parse_statements(toks, q, seq![s]) == Ok::<Seq<StatementModel>, ErrModel>(seq![s]));
}

/// An equality operator (`==` or `!=`) never yields a tree: once its right
/// operand has parsed, the layer fails with a token mismatch that expects
/// `Equal` and names the operator found, because equality goes through the
/// arithmetic operator mapping, which has no entry for either token.
pub proof fn lemma_equality_never_maps(toks: Seq<Token>, pos: int, left: ExprModel)
    requires
        is_equality_op(toks, pos),
        parse_comparison(toks, pos + 1) is Ok,
        pos + 1 <= parse_comparison(toks, pos + 1)->Ok_0.1 <= toks.len(),
    ensures
        parse_equality_rest(toks, pos, left) == Err::<(ExprModel, int), ErrModel>(
            unmapped_equality(toks[pos]),
        ),
        unmapped_equality(toks[pos]) matches ErrModel::Mismatch(m) && m.expected == TokenType::Equal
            && m.found == toks[pos].token_type && m.position == toks[pos].position,
{
    assert(arithmetic_of(toks[pos].token_type) is None);
}

/// A token mismatch that the parser raised, wrapped in the parser's aggregate
/// and put behind the reportable interface, is recovered by typed extraction
/// with its expected kind, found kind and position unchanged.
pub proof fn lemma_extraction_round_trip(
    result: Result<Node, ParserErrors>,
    raised: Result<Seq<StatementModel>, ErrModel>,
)
    requires
        program_agrees(result, raised),
        raised matches Err(ErrModel::Mismatch(_)),
    ensures
        result is Err,
        carried_mismatch(ErrorReport::Parser(result->Err_0)) matches Some(t) && t.model()
            == raised->Err_0->Mismatch_0,
{
}

/// Typed extraction hands back exactly the token mismatch that was wrapped.
pub proof fn lemma_extraction_returns_wrapped(m: TokenMismatch)
    ensures
        carried_mismatch(ErrorReport::Parser(ParserErrors::Error(DynamicError::TokenMismatch(m))))
            == Some(m),
{
}

/// Typed extraction finds nothing in a labelled case, in free text, or in
/// another stage's aggregate.
pub proof fn lemma_extraction_ignores_other_cases(report: ErrorReport)
    requires
        !(report matches ErrorReport::Parser(ParserErrors::Error(DynamicError::TokenMismatch(_)))),
    ensures
        carried_mismatch(report) is None,
{
}

/// Converting an aggregate to the reportable interface and back keeps only
/// the aggregate's name, as free text, whatever case it held.
pub proof fn lemma_report_round_trip_is_lossy(original: ParserErrors, back: ParserErrors)
    requires
        back matches ParserErrors::String(s) && s@ == ErrorReport::Parser(original).list_name_spec(),
    ensures
        back matches ParserErrors::String(s) && s@ == "ParserErrors"@,
{
}

/// Putting an aggregate behind the reportable interface keeps what it reports.
pub proof fn lemma_report_keeps_rendering(p: ParserErrors)
    ensures
        ErrorReport::Parser(p).print_spec() == p.print_spec(),
        ErrorReport::Parser(p).error_name_spec() == p.error_name_spec(),
        ErrorReport::Parser(p).list_name_spec() == p.list_name_spec(),
{
}

} // verus!
