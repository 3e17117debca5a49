//! Facts about the tokenizer and the parser as a whole.
use vstd::prelude::*;
use crate::grammar::{
    adv, at, closing_parenthesis_message, create_end_message, cur, end_of_input_message,
    infix_message, p_column, p_constraints, p_create, p_create_columns, p_db_type, p_end, p_expr,
    p_expr_list, p_extend, p_infix, p_more_columns, p_more_exprs, p_prefix, p_select,
    p_select_columns, p_select_from, p_select_order, p_select_where, p_statement, parse_query,
    prefix_message, select_end_message,
};
use crate::statement::{SpecExpr, SpecStatement};
use crate::token::{token_text, Keyword};
use crate::token::SpecToken;
use crate::tokenizer::{
    lex_from, mismatched_message, next_token_spec, tokenize_spec, unterminated_message, TokenStream,
};

verus! {

/// Parsing depends on the text alone: equal texts give equal token streams
/// and structurally equal statements (or the same error).
pub proof fn parse_is_deterministic(a: Seq<char>, b: Seq<char>)
    requires
        a == b,
    ensures
        tokenize_spec(a) == tokenize_spec(b),
        parse_query(a) == parse_query(b),
{
}

/// The empty text tokenizes to exactly one end marker and no error.
pub proof fn empty_input_is_one_end_marker()
    ensures
        tokenize_spec(Seq::empty()) == (TokenStream { toks: seq![SpecToken::Eof], err: None }),
{
}

/// The message for an unterminated string literal differs from every
/// message for mismatched quotes.
pub proof fn string_errors_are_distinct(quote: char, other: char, found: char)
    ensures
        unterminated_message(quote) != mismatched_message(other, found),
{
    reveal_strlit("Unterminated string starting with ");
    reveal_strlit("Mismatched quotes: string started with ");
    assert(unterminated_message(quote)[0] != mismatched_message(other, found)[0]);
}

/// Every error that a token stream carries is a non-empty message.
pub open spec fn errors_have_text(s: TokenStream) -> bool {
    s.err matches Some(m) ==> m.len() > 0
}

/// A parse from index `i` either moves past at least one token and stays in
/// the stream, or fails with a non-empty message.
pub open spec fn consumes<T>(r: Result<(T, int), Seq<char>>, i: int, n: int) -> bool {
    match r {
        Ok((_, j)) => i < j <= n,
        Err(m) => m.len() > 0,
    }
}

/// Like [`consumes`], for a parse that may also consume nothing.
pub open spec fn stays<T>(r: Result<(T, int), Seq<char>>, i: int, n: int) -> bool {
    match r {
        Ok((_, j)) => i <= j <= n,
        Err(m) => m.len() > 0,
    }
}

/// The tokenizer's error messages are never empty.
pub proof fn lemma_lex_errors_have_text(cs: Seq<char>, p: int)
    ensures
        errors_have_text(lex_from(cs, p)),
    decreases cs.len() - p,
{
    let (r, q) = next_token_spec(cs, p);
    match r {
        Err(m) => {},
        Ok(t) => {
            if !(t is Eof) && p < q <= cs.len() {
                lemma_lex_errors_have_text(cs, q);
            }
        },
    }
}

proof fn lemma_expression_messages(t: SpecToken)
    ensures
        end_of_input_message().len() > 0,
        closing_parenthesis_message().len() > 0,
        prefix_message(t).len() > 0,
        infix_message(t).len() > 0,
{
    reveal_strlit("Unexpected end of input");
    reveal_strlit("Expected closing parenthesis");
    reveal_strlit("Unexpected token in prefix position: ");
    reveal_strlit("Unexpected token in infix position: ");
}

/// An expression parse consumes tokens or fails with a message.
pub proof fn lemma_expr_consumes(s: TokenStream, i: int, min: u8)
    requires
        errors_have_text(s),
    ensures
        consumes(p_expr(s, i, min), i, s.toks.len() as int),
    decreases s.toks.len() - i, 1int,
{
    lemma_prefix_consumes(s, i);
    if let Ok((left, j)) = p_prefix(s, i) {
        lemma_extend_stays(s, left, j, min);
    }
}

/// A prefix form consumes tokens or fails with a message.
pub proof fn lemma_prefix_consumes(s: TokenStream, i: int)
    requires
        errors_have_text(s),
    ensures
        consumes(p_prefix(s, i), i, s.toks.len() as int),
    decreases s.toks.len() - i, 0int,
{
    match cur(s, i) {
        None => lemma_expression_messages(SpecToken::Eof),
        Some(t) => {
            lemma_expression_messages(t);
            if let Ok(j) = adv(s, i) {
                if crate::grammar::prefix_operator_of(t) is Some {
                    lemma_expr_consumes(s, j, 6);
                } else if t is LeftParentheses {
                    lemma_expr_consumes(s, j, 0);
                }
            }
        },
    }
}

/// Extending an expression stays in the stream or fails with a message.
pub proof fn lemma_extend_stays(s: TokenStream, left: SpecExpr, j: int, min: u8)
    requires
        errors_have_text(s),
        0 <= j <= s.toks.len(),
    ensures
        stays(p_extend(s, left, j, min), j, s.toks.len() as int),
    decreases s.toks.len() - j, 1int,
{
    if min < crate::grammar::precedence(cur(s, j)) {
        lemma_infix_consumes(s, left, j);
        if let Ok((e, k)) = p_infix(s, left, j) {
            lemma_extend_stays(s, e, k, min);
        }
    }
}

/// An infix or postfix operator consumes tokens or fails with a message.
pub proof fn lemma_infix_consumes(s: TokenStream, left: SpecExpr, j: int)
    requires
        errors_have_text(s),
    ensures
        consumes(p_infix(s, left, j), j, s.toks.len() as int),
    decreases s.toks.len() - j, 0int,
{
    match cur(s, j) {
        None => lemma_expression_messages(SpecToken::Eof),
        Some(t) => {
            lemma_expression_messages(t);
            if let Ok(k) = adv(s, j) {
                if crate::grammar::binary_operator_of(t) is Some {
                    lemma_expr_consumes(s, k, crate::grammar::precedence(Some(t)));
                }
            }
        },
    }
}

proof fn lemma_statement_messages()
    ensures
        "Expected semicolon at the end of the SELECT statement"@.len() > 0,
        "Expected semicolon at the end of the CREATE TABLE statement"@.len() > 0,
        "Expected BY after ORDER"@.len() > 0,
        "Expected table name after FROM"@.len() > 0,
        "Expected FROM clause in SELECT statement"@.len() > 0,
        "Unexpected end of input in type definition"@.len() > 0,
        "Expected ) after VARCHAR length"@.len() > 0,
        "Expected number for VARCHAR length"@.len() > 0,
        "Expected ( after VARCHAR"@.len() > 0,
        "Expected data type, got "@.len() > 0,
        "Unexpected end of input in column definition"@.len() > 0,
        "Expected KEY after PRIMARY"@.len() > 0,
        "Expected NULL after NOT"@.len() > 0,
        "Expected ) after CHECK expression"@.len() > 0,
        "Expected ( after CHECK"@.len() > 0,
        "Unexpected token in column definition: "@.len() > 0,
        "Expected column name"@.len() > 0,
        "Expected ) after column definitions"@.len() > 0,
        "Expected ( after table name"@.len() > 0,
        "Expected table name after CREATE TABLE"@.len() > 0,
        "Expected TABLE after CREATE"@.len() > 0,
        "Empty input"@.len() > 0,
        "Expected SELECT or CREATE, got "@.len() > 0,
{
    reveal_strlit("Expected semicolon at the end of the SELECT statement");
    reveal_strlit("Expected semicolon at the end of the CREATE TABLE statement");
    reveal_strlit("Expected BY after ORDER");
    reveal_strlit("Expected table name after FROM");
    reveal_strlit("Expected FROM clause in SELECT statement");
    reveal_strlit("Unexpected end of input in type definition");
    reveal_strlit("Expected ) after VARCHAR length");
    reveal_strlit("Expected number for VARCHAR length");
    reveal_strlit("Expected ( after VARCHAR");
    reveal_strlit("Expected data type, got ");
    reveal_strlit("Unexpected end of input in column definition");
    reveal_strlit("Expected KEY after PRIMARY");
    reveal_strlit("Expected NULL after NOT");
    reveal_strlit("Expected ) after CHECK expression");
    reveal_strlit("Expected ( after CHECK");
    reveal_strlit("Unexpected token in column definition: ");
    reveal_strlit("Expected column name");
    reveal_strlit("Expected ) after column definitions");
    reveal_strlit("Expected ( after table name");
    reveal_strlit("Expected table name after CREATE TABLE");
    reveal_strlit("Expected TABLE after CREATE");
    reveal_strlit("Empty input");
    reveal_strlit("Expected SELECT or CREATE, got ");
}

/// Further list items stay in the stream or fail with a message.
pub proof fn lemma_more_exprs_stays(s: TokenStream, i: int)
    requires
        errors_have_text(s),
        0 <= i <= s.toks.len(),
    ensures
        stays(p_more_exprs(s, i), i, s.toks.len() as int),
    decreases s.toks.len() - i,
{
    if at(s, i, SpecToken::Comma) {
        if let Ok(j) = adv(s, i) {
            lemma_expr_consumes(s, j, 0);
            if let Ok((e, k)) = p_expr(s, j, 0) {
                lemma_more_exprs_stays(s, k);
            }
        }
    }
}

/// An expression list consumes tokens or fails with a message.
pub proof fn lemma_expr_list_consumes(s: TokenStream, i: int)
    requires
        errors_have_text(s),
    ensures
        consumes(p_expr_list(s, i), i, s.toks.len() as int),
{
    lemma_expr_consumes(s, i, 0);
    if let Ok((e, k)) = p_expr(s, i, 0) {
        lemma_more_exprs_stays(s, k);
    }
}

/// A failure of a statement rule, from any index, carries a message.
pub open spec fn fails_with_text<T>(r: Result<T, Seq<char>>) -> bool {
    r matches Err(m) ==> m.len() > 0
}

proof fn lemma_end(s: TokenStream, i: int, st: SpecStatement, missing: Seq<char>)
    requires
        errors_have_text(s),
        missing.len() > 0,
    ensures
        fails_with_text(p_end(s, i, st, missing)),
{
}

proof fn lemma_select_order(
    s: TokenStream,
    i: int,
    columns: Seq<SpecExpr>,
    from: Seq<char>,
    where_clause: Option<SpecExpr>,
)
    requires
        errors_have_text(s),
    ensures
        fails_with_text(p_select_order(s, i, columns, from, where_clause)),
{
    lemma_statement_messages();
    if at(s, i, SpecToken::Keyword(Keyword::Order)) {
        if let Ok(j) = adv(s, i) {
            if let Ok(k) = adv(s, j) {
                lemma_expr_list_consumes(s, k);
                if let Ok((orderby, l)) = p_expr_list(s, k) {
                    lemma_end(
                        s,
                        l,
                        SpecStatement::Select { columns, from, where_clause, orderby },
                        select_end_message(),
                    );
                }
            }
        }
    } else {
        lemma_end(
            s,
            i,
            SpecStatement::Select { columns, from, where_clause, orderby: Seq::empty() },
            select_end_message(),
        );
    }
}

proof fn lemma_select(s: TokenStream, i: int)
    requires
        errors_have_text(s),
    ensures
        fails_with_text(p_select(s, i)),
{
    lemma_statement_messages();
    if let Ok(j) = adv(s, i) {
        if !at(s, j, SpecToken::Star) {
            lemma_expr_list_consumes(s, j);
        }
        if let Ok((columns, k)) = p_select_columns(s, j) {
            if let Ok(k1) = adv(s, k) {
                if let Ok(k2) = adv(s, k1) {
                    if let Some(SpecToken::Identifier(name)) = cur(s, k1) {
                        if at(s, k2, SpecToken::Keyword(Keyword::Where)) {
                            if let Ok(k3) = adv(s, k2) {
                                lemma_expr_consumes(s, k3, 0);
                                if let Ok((w, k4)) = p_expr(s, k3, 0) {
                                    lemma_select_order(s, k4, columns, name, Some(w));
                                }
                            }
                        } else {
                            lemma_select_order(s, k2, columns, name, None);
                        }
                    }
                }
            }
        }
    }
}

proof fn lemma_db_type(s: TokenStream, i: int)
    requires
        errors_have_text(s),
    ensures
        consumes(p_db_type(s, i), i, s.toks.len() as int),
{
    lemma_statement_messages();
    if let Some(t) = cur(s, i) {
        assert(("Expected data type, got "@ + token_text(t)).len() > 0);
    }
}

/// The constraints of a column stay in the stream or fail with a message.
pub proof fn lemma_constraints_stay(s: TokenStream, i: int)
    requires
        errors_have_text(s),
        0 <= i <= s.toks.len(),
    ensures
        stays(p_constraints(s, i), i, s.toks.len() as int),
    decreases s.toks.len() - i,
{
    lemma_statement_messages();
    if let Some(t) = cur(s, i) {
        assert(("Unexpected token in column definition: "@ + token_text(t)).len() > 0);
        if let Ok(j) = adv(s, i) {
            if t == SpecToken::Keyword(Keyword::Check) && at(s, j, SpecToken::LeftParentheses) {
                if let Ok(k) = adv(s, j) {
                    lemma_expr_consumes(s, k, 0);
                    if let Ok((e, l)) = p_expr(s, k, 0) {
                        if at(s, l, SpecToken::RightParentheses) {
                            if let Ok(o) = adv(s, l) {
                                lemma_constraints_stay(s, o);
                            }
                        }
                    }
                }
            } else if (t == SpecToken::Keyword(Keyword::Primary) && at(s, j, SpecToken::Keyword(Keyword::Key)))
                || (t == SpecToken::Keyword(Keyword::Not) && at(s, j, SpecToken::Keyword(Keyword::Null))) {
                if let Ok(k) = adv(s, j) {
                    lemma_constraints_stay(s, k);
                }
            }
        }
    }
}

/// A column definition consumes tokens or fails with a message.
pub proof fn lemma_column_consumes(s: TokenStream, i: int)
    requires
        errors_have_text(s),
    ensures
        consumes(p_column(s, i), i, s.toks.len() as int),
{
    lemma_statement_messages();
    if let Ok(j) = adv(s, i) {
        lemma_db_type(s, j);
        if let Ok((column_type, k)) = p_db_type(s, j) {
            lemma_constraints_stay(s, k);
        }
    }
}

/// Further column definitions stay in the stream or fail with a message.
pub proof fn lemma_more_columns_stay(s: TokenStream, i: int)
    requires
        errors_have_text(s),
        0 <= i <= s.toks.len(),
    ensures
        stays(p_more_columns(s, i), i, s.toks.len() as int),
    decreases s.toks.len() - i,
{
    if at(s, i, SpecToken::Comma) {
        if let Ok(j) = adv(s, i) {
            lemma_column_consumes(s, j);
            if let Ok((c, k)) = p_column(s, j) {
                lemma_more_columns_stay(s, k);
            }
        }
    }
}

proof fn lemma_create(s: TokenStream, i: int)
    requires
        errors_have_text(s),
    ensures
        fails_with_text(p_create(s, i)),
{
    lemma_statement_messages();
    if let Ok(j) = adv(s, i) {
        if let Ok(k) = adv(s, j) {
            if let Ok(l) = adv(s, k) {
                if let Ok(o) = adv(s, l) {
                    if let Some(SpecToken::Identifier(name)) = cur(s, k) {
                        lemma_column_consumes(s, o);
                        if let Ok((c, o1)) = p_column(s, o) {
                            lemma_more_columns_stay(s, o1);
                            if let Ok((cs, o2)) = p_more_columns(s, o1) {
                                if let Ok(o3) = adv(s, o2) {
                                    lemma_end(
                                        s,
                                        o3,
                                        SpecStatement::CreateTable { table_name: name, column_list: seq![c] + cs },
                                        create_end_message(),
                                    );
                                }
                            }
                        }
                    }
                }
            }
        }
    }
}

/// Parsing a text fails only with a non-empty message, and the position
/// checks of the recursive grammar rules never fail.
pub proof fn failures_carry_a_message(cs: Seq<char>)
    ensures
        fails_with_text(parse_query(cs)),
        fails_with_text(p_statement(tokenize_spec(cs), 0)),
{
    let s = tokenize_spec(cs);
    lemma_lex_errors_have_text(cs, 0);
    lemma_statement_messages();
    if let Some(t) = cur(s, 0) {
        assert(("Expected SELECT or CREATE, got "@ + token_text(t)).len() > 0);
    }
    lemma_select(s, 0);
    lemma_create(s, 0);
}

} // verus!
