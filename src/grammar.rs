//! The grammar of expressions and statements, stated over the token stream
//! of a query. A parse from token index `i` gives a value and the index of
//! the first token after it, or an error message.
//!
//! Expressions follow the operator-precedence (Pratt) method: one prefix
//! form, then, while the next token binds tighter than the current rank,
//! that operator with a right operand parsed at the operator's own rank.
//!
//! Each recursive rule checks that the parse before it moved forward; that
//! check never fails (see `failures_carry_a_message` in [`crate::laws`]),
//! and it is what makes the rules well-founded.
use vstd::prelude::*;
use crate::statement::{BinaryOperator, DBType, SpecColumn, SpecConstraint, SpecExpr, SpecStatement, UnaryOperator};
use crate::token::{token_text, Keyword, SpecToken};
use crate::tokenizer::{tokenize_spec, TokenStream};

verus! {

/// The token at index `i`, if the stream reaches that far.
pub open spec fn cur(s: TokenStream, i: int) -> Option<SpecToken> {
    if 0 <= i < s.toks.len() {
        Some(s.toks[i])
    } else {
        None
    }
}

/// Moving past the token at index `i`: this fails with the tokenizer's
/// error when that error comes next.
pub open spec fn adv(s: TokenStream, i: int) -> Result<int, Seq<char>> {
    if i + 1 == s.toks.len() && s.err is Some {
        Err(s.err->Some_0)
    } else {
        Ok(i + 1)
    }
}

/// Whether the token at index `i` is `t`.
pub open spec fn at(s: TokenStream, i: int, t: SpecToken) -> bool {
    cur(s, i) == Some(t)
}

/// The binding rank of a token that may extend an expression; 0 for one
/// that may not.
pub open spec fn precedence(t: Option<SpecToken>) -> u8 {
    match t {
        Some(SpecToken::Keyword(Keyword::Asc)) => 1,
        Some(SpecToken::Keyword(Keyword::Desc)) => 1,
        Some(SpecToken::Keyword(Keyword::Or)) => 2,
        Some(SpecToken::Keyword(Keyword::And)) => 3,
        Some(SpecToken::Equal) => 4,
        Some(SpecToken::NotEqual) => 4,
        Some(SpecToken::GreaterThan) => 4,
        Some(SpecToken::GreaterThanOrEqual) => 4,
        Some(SpecToken::LessThan) => 4,
        Some(SpecToken::LessThanOrEqual) => 4,
        Some(SpecToken::Plus) => 5,
        Some(SpecToken::Minus) => 5,
        Some(SpecToken::Star) => 6,
        Some(SpecToken::Divide) => 6,
        _ => 0,
    }
}

/// The binary operator that a token stands for between two operands.
pub open spec fn binary_operator_of(t: SpecToken) -> Option<BinaryOperator> {
    match t {
        SpecToken::Plus => Some(BinaryOperator::Plus),
        SpecToken::Minus => Some(BinaryOperator::Minus),
        SpecToken::Star => Some(BinaryOperator::Multiply),
        SpecToken::Divide => Some(BinaryOperator::Divide),
        SpecToken::Equal => Some(BinaryOperator::Equal),
        SpecToken::NotEqual => Some(BinaryOperator::NotEqual),
        SpecToken::GreaterThan => Some(BinaryOperator::GreaterThan),
        SpecToken::GreaterThanOrEqual => Some(BinaryOperator::GreaterThanOrEqual),
        SpecToken::LessThan => Some(BinaryOperator::LessThan),
        SpecToken::LessThanOrEqual => Some(BinaryOperator::LessThanOrEqual),
        SpecToken::Keyword(Keyword::And) => Some(BinaryOperator::And),
        SpecToken::Keyword(Keyword::Or) => Some(BinaryOperator::Or),
        _ => None,
    }
}

/// The unary operator that a token stands for before its operand.
pub open spec fn prefix_operator_of(t: SpecToken) -> Option<UnaryOperator> {
    match t {
        SpecToken::Keyword(Keyword::Not) => Some(UnaryOperator::Not),
        SpecToken::Plus => Some(UnaryOperator::Plus),
        SpecToken::Minus => Some(UnaryOperator::Minus),
        _ => None,
    }
}

/// The unary operator that a token stands for after its operand.
pub open spec fn postfix_operator_of(t: SpecToken) -> Option<UnaryOperator> {
    match t {
        SpecToken::Keyword(Keyword::Asc) => Some(UnaryOperator::Asc),
        SpecToken::Keyword(Keyword::Desc) => Some(UnaryOperator::Desc),
        _ => None,
    }
}

/// The expression that a token makes on its own.
pub open spec fn literal_of(t: SpecToken) -> Option<SpecExpr> {
    match t {
        SpecToken::Number(n) => Some(SpecExpr::Number(n)),
        SpecToken::Str(v) => Some(SpecExpr::Str(v)),
        SpecToken::Identifier(v) => Some(SpecExpr::Identifier(v)),
        SpecToken::Keyword(Keyword::True) => Some(SpecExpr::Bool(true)),
        SpecToken::Keyword(Keyword::False) => Some(SpecExpr::Bool(false)),
        _ => None,
    }
}

pub open spec fn end_of_input_message() -> Seq<char> {
    "Unexpected end of input"@
}

pub open spec fn prefix_message(t: SpecToken) -> Seq<char> {
    "Unexpected token in prefix position: "@ + token_text(t)
}

pub open spec fn infix_message(t: SpecToken) -> Seq<char> {
    "Unexpected token in infix position: "@ + token_text(t)
}

pub open spec fn closing_parenthesis_message() -> Seq<char> {
    "Expected closing parenthesis"@
}

/// An expression from index `i` whose operators all bind tighter than
/// `min`.
pub open spec fn p_expr(s: TokenStream, i: int, min: u8) -> Result<(SpecExpr, int), Seq<char>>
    decreases s.toks.len() - i, 1int,
{
    match p_prefix(s, i) {
        Err(m) => Err(m),
        Ok((left, j)) => if i < j <= s.toks.len() {
            p_extend(s, left, j, min)
        } else {
            Err(Seq::empty())
        },
    }
}

/// One prefix form from index `i`: a literal, an identifier, a
/// parenthesised expression, or a prefix operator and its operand.
pub open spec fn p_prefix(s: TokenStream, i: int) -> Result<(SpecExpr, int), Seq<char>>
    decreases s.toks.len() - i, 0int,
{
    match cur(s, i) {
        None => Err(end_of_input_message()),
        Some(t) => {
            if literal_of(t) is Some {
                match adv(s, i) {
                    Err(m) => Err(m),
                    Ok(j) => Ok((literal_of(t)->Some_0, j)),
                }
            } else if prefix_operator_of(t) is Some {
                match adv(s, i) {
                    Err(m) => Err(m),
                    Ok(j) => match p_expr(s, j, 6) {
                        Err(m) => Err(m),
                        Ok((e, k)) => Ok(
                            (SpecExpr::Unary(Box::new(e), prefix_operator_of(t)->Some_0), k),
                        ),
                    },
                }
            } else if t is LeftParentheses {
                match adv(s, i) {
                    Err(m) => Err(m),
                    Ok(j) => match p_expr(s, j, 0) {
                        Err(m) => Err(m),
                        Ok((e, k)) => if at(s, k, SpecToken::RightParentheses) {
                            match adv(s, k) {
                                Err(m) => Err(m),
                                Ok(l) => Ok((e, l)),
                            }
                        } else {
                            Err(closing_parenthesis_message())
                        },
                    },
                }
            } else {
                Err(prefix_message(t))
            }
        },
    }
}

/// Extends `left`, which ends before index `j`, with each following
/// operator that binds tighter than `min`.
pub open spec fn p_extend(s: TokenStream, left: SpecExpr, j: int, min: u8) -> Result<
    (SpecExpr, int),
    Seq<char>,
>
    decreases s.toks.len() - j, 1int,
{
    if min < precedence(cur(s, j)) {
        match p_infix(s, left, j) {
            Err(m) => Err(m),
            Ok((e, k)) => if j < k <= s.toks.len() {
                p_extend(s, e, k, min)
            } else {
                Err(Seq::empty())
            },
        }
    } else {
        Ok((left, j))
    }
}

/// The operator at index `j` applied to `left`: a binary operator takes a
/// right operand parsed at its own rank, which makes it left-associative.
pub open spec fn p_infix(s: TokenStream, left: SpecExpr, j: int) -> Result<(SpecExpr, int), Seq<char>>
    decreases s.toks.len() - j, 0int,
{
    match cur(s, j) {
        None => Err(end_of_input_message()),
        Some(t) => {
            if binary_operator_of(t) is Some {
                match adv(s, j) {
                    Err(m) => Err(m),
                    Ok(k) => match p_expr(s, k, precedence(Some(t))) {
                        Err(m) => Err(m),
                        Ok((right, l)) => Ok(
                            (
                                SpecExpr::Binary(
                                    Box::new(left),
                                    binary_operator_of(t)->Some_0,
                                    Box::new(right),
                                ),
                                l,
                            ),
                        ),
                    },
                }
            } else if postfix_operator_of(t) is Some {
                match adv(s, j) {
                    Err(m) => Err(m),
                    Ok(k) => Ok((SpecExpr::Unary(Box::new(left), postfix_operator_of(t)->Some_0), k)),
                }
            } else {
                Err(infix_message(t))
            }
        },
    }
}

/// A successful list parse with `xs` put in front of its items.
pub open spec fn prepend<T>(xs: Seq<T>, r: Result<(Seq<T>, int), Seq<char>>) -> Result<
    (Seq<T>, int),
    Seq<char>,
> {
    match r {
        Ok((ys, k)) => Ok((xs + ys, k)),
        Err(m) => Err(m),
    }
}

/// Further items of a comma-separated expression list: `(, expr)*`.
pub open spec fn p_more_exprs(s: TokenStream, i: int) -> Result<(Seq<SpecExpr>, int), Seq<char>>
    decreases s.toks.len() - i,
{
    if at(s, i, SpecToken::Comma) {
        match adv(s, i) {
            Err(m) => Err(m),
            Ok(j) => match p_expr(s, j, 0) {
                Err(m) => Err(m),
                Ok((e, k)) => if i < k <= s.toks.len() {
                    prepend(seq![e], p_more_exprs(s, k))
                } else {
                    Err(Seq::empty())
                },
            },
        }
    } else {
        Ok((Seq::empty(), i))
    }
}

/// A comma-separated list of one or more expressions.
pub open spec fn p_expr_list(s: TokenStream, i: int) -> Result<(Seq<SpecExpr>, int), Seq<char>> {
    match p_expr(s, i, 0) {
        Err(m) => Err(m),
        Ok((e, k)) => prepend(seq![e], p_more_exprs(s, k)),
    }
}

/// The statement terminator, which ends `st`.
pub open spec fn p_end(s: TokenStream, i: int, st: SpecStatement, missing: Seq<char>) -> Result<
    (SpecStatement, int),
    Seq<char>,
> {
    if at(s, i, SpecToken::Semicolon) {
        match adv(s, i) {
            Err(m) => Err(m),
            Ok(j) => Ok((st, j)),
        }
    } else {
        Err(missing)
    }
}

pub open spec fn select_end_message() -> Seq<char> {
    "Expected semicolon at the end of the SELECT statement"@
}

pub open spec fn create_end_message() -> Seq<char> {
    "Expected semicolon at the end of the CREATE TABLE statement"@
}

/// The columns of a `SELECT`: a lone `*`, or a list of expressions.
pub open spec fn p_select_columns(s: TokenStream, i: int) -> Result<(Seq<SpecExpr>, int), Seq<char>> {
    if at(s, i, SpecToken::Star) {
        match adv(s, i) {
            Err(m) => Err(m),
            Ok(j) => Ok((seq![SpecExpr::Wildcard], j)),
        }
    } else {
        p_expr_list(s, i)
    }
}

/// The optional `ORDER BY` clause of a `SELECT` and its terminator.
pub open spec fn p_select_order(
    s: TokenStream,
    i: int,
    columns: Seq<SpecExpr>,
    from: Seq<char>,
    where_clause: Option<SpecExpr>,
) -> Result<(SpecStatement, int), Seq<char>> {
    if at(s, i, SpecToken::Keyword(Keyword::Order)) {
        match adv(s, i) {
            Err(m) => Err(m),
            Ok(j) => if at(s, j, SpecToken::Keyword(Keyword::By)) {
                match adv(s, j) {
                    Err(m) => Err(m),
                    Ok(k) => match p_expr_list(s, k) {
                        Err(m) => Err(m),
                        Ok((orderby, l)) => p_end(
                            s,
                            l,
                            SpecStatement::Select { columns, from, where_clause, orderby },
                            select_end_message(),
                        ),
                    },
                }
            } else {
                Err("Expected BY after ORDER"@)
            },
        }
    } else {
        p_end(
            s,
            i,
            SpecStatement::Select { columns, from, where_clause, orderby: Seq::empty() },
            select_end_message(),
        )
    }
}

/// The optional `WHERE` clause of a `SELECT` and what follows it.
pub open spec fn p_select_where(s: TokenStream, i: int, columns: Seq<SpecExpr>, from: Seq<char>) -> Result<
    (SpecStatement, int),
    Seq<char>,
> {
    if at(s, i, SpecToken::Keyword(Keyword::Where)) {
        match adv(s, i) {
            Err(m) => Err(m),
            Ok(j) => match p_expr(s, j, 0) {
                Err(m) => Err(m),
                Ok((w, k)) => p_select_order(s, k, columns, from, Some(w)),
            },
        }
    } else {
        p_select_order(s, i, columns, from, None)
    }
}

/// The mandatory `FROM table` of a `SELECT` and what follows it.
pub open spec fn p_select_from(s: TokenStream, i: int, columns: Seq<SpecExpr>) -> Result<
    (SpecStatement, int),
    Seq<char>,
> {
    if at(s, i, SpecToken::Keyword(Keyword::From)) {
        match adv(s, i) {
            Err(m) => Err(m),
            Ok(j) => match cur(s, j) {
                Some(SpecToken::Identifier(name)) => match adv(s, j) {
                    Err(m) => Err(m),
                    Ok(k) => p_select_where(s, k, columns, name),
                },
                _ => Err("Expected table name after FROM"@),
            },
        }
    } else {
        Err("Expected FROM clause in SELECT statement"@)
    }
}

/// `SELECT (* | expr (, expr)*) FROM table (WHERE expr)? (ORDER BY expr (, expr)*)? ;`
/// with the cursor on `SELECT`.
pub open spec fn p_select(s: TokenStream, i: int) -> Result<(SpecStatement, int), Seq<char>> {
    match adv(s, i) {
        Err(m) => Err(m),
        Ok(j) => match p_select_columns(s, j) {
            Err(m) => Err(m),
            Ok((columns, k)) => p_select_from(s, k, columns),
        },
    }
}

/// `INT | BOOL | VARCHAR ( number )`.
pub open spec fn p_db_type(s: TokenStream, i: int) -> Result<(DBType, int), Seq<char>> {
    match cur(s, i) {
        None => Err("Unexpected end of input in type definition"@),
        Some(SpecToken::Keyword(Keyword::Int)) => match adv(s, i) {
            Err(m) => Err(m),
            Ok(j) => Ok((DBType::Int, j)),
        },
        Some(SpecToken::Keyword(Keyword::Bool)) => match adv(s, i) {
            Err(m) => Err(m),
            Ok(j) => Ok((DBType::Bool, j)),
        },
        Some(SpecToken::Keyword(Keyword::Varchar)) => match adv(s, i) {
            Err(m) => Err(m),
            Ok(j) => if at(s, j, SpecToken::LeftParentheses) {
                match adv(s, j) {
                    Err(m) => Err(m),
                    Ok(k) => match cur(s, k) {
                        Some(SpecToken::Number(n)) => match adv(s, k) {
                            Err(m) => Err(m),
                            Ok(l) => if at(s, l, SpecToken::RightParentheses) {
                                match adv(s, l) {
                                    Err(m) => Err(m),
                                    Ok(o) => Ok((DBType::Varchar(n as usize), o)),
                                }
                            } else {
                                Err("Expected ) after VARCHAR length"@)
                            },
                        },
                        _ => Err("Expected number for VARCHAR length"@),
                    },
                }
            } else {
                Err("Expected ( after VARCHAR"@)
            },
        },
        Some(t) => Err("Expected data type, got "@ + token_text(t)),
    }
}

/// The constraints of a column, in any number and order, up to the `,` or
/// `)` that ends the column.
pub open spec fn p_constraints(s: TokenStream, i: int) -> Result<(Seq<SpecConstraint>, int), Seq<char>>
    decreases s.toks.len() - i,
{
    match cur(s, i) {
        None => Err("Unexpected end of input in column definition"@),
        Some(t) => if t is Comma || t is RightParentheses {
            Ok((Seq::empty(), i))
        } else if t == SpecToken::Keyword(Keyword::Primary) {
            match adv(s, i) {
                Err(m) => Err(m),
                Ok(j) => if at(s, j, SpecToken::Keyword(Keyword::Key)) {
                    match adv(s, j) {
                        Err(m) => Err(m),
                        Ok(k) => if i < k <= s.toks.len() {
                            prepend(seq![SpecConstraint::PrimaryKey], p_constraints(s, k))
                        } else {
                            Err(Seq::empty())
                        },
                    }
                } else {
                    Err("Expected KEY after PRIMARY"@)
                },
            }
        } else if t == SpecToken::Keyword(Keyword::Not) {
            match adv(s, i) {
                Err(m) => Err(m),
                Ok(j) => if at(s, j, SpecToken::Keyword(Keyword::Null)) {
                    match adv(s, j) {
                        Err(m) => Err(m),
                        Ok(k) => if i < k <= s.toks.len() {
                            prepend(seq![SpecConstraint::NotNull], p_constraints(s, k))
                        } else {
                            Err(Seq::empty())
                        },
                    }
                } else {
                    Err("Expected NULL after NOT"@)
                },
            }
        } else if t == SpecToken::Keyword(Keyword::Check) {
            match adv(s, i) {
                Err(m) => Err(m),
                Ok(j) => if at(s, j, SpecToken::LeftParentheses) {
                    match adv(s, j) {
                        Err(m) => Err(m),
                        Ok(k) => match p_expr(s, k, 0) {
                            Err(m) => Err(m),
                            Ok((e, l)) => if at(s, l, SpecToken::RightParentheses) {
                                match adv(s, l) {
                                    Err(m) => Err(m),
                                    Ok(o) => if i < o <= s.toks.len() {
                                        prepend(seq![SpecConstraint::Check(e)], p_constraints(s, o))
                                    } else {
                                        Err(Seq::empty())
                                    },
                                }
                            } else {
                                Err("Expected ) after CHECK expression"@)
                            },
                        },
                    }
                } else {
                    Err("Expected ( after CHECK"@)
                },
            }
        } else {
            Err("Unexpected token in column definition: "@ + token_text(t))
        },
    }
}

/// `name type constraint*`.
pub open spec fn p_column(s: TokenStream, i: int) -> Result<(SpecColumn, int), Seq<char>> {
    match cur(s, i) {
        Some(SpecToken::Identifier(name)) => match adv(s, i) {
            Err(m) => Err(m),
            Ok(j) => match p_db_type(s, j) {
                Err(m) => Err(m),
                Ok((column_type, k)) => match p_constraints(s, k) {
                    Err(m) => Err(m),
                    Ok((constraints, l)) => Ok((SpecColumn { name, column_type, constraints }, l)),
                },
            },
        },
        _ => Err("Expected column name"@),
    }
}

/// Further column definitions: `(, column)*`.
pub open spec fn p_more_columns(s: TokenStream, i: int) -> Result<(Seq<SpecColumn>, int), Seq<char>>
    decreases s.toks.len() - i,
{
    if at(s, i, SpecToken::Comma) {
        match adv(s, i) {
            Err(m) => Err(m),
            Ok(j) => match p_column(s, j) {
                Err(m) => Err(m),
                Ok((c, k)) => if i < k <= s.toks.len() {
                    prepend(seq![c], p_more_columns(s, k))
                } else {
                    Err(Seq::empty())
                },
            },
        }
    } else {
        Ok((Seq::empty(), i))
    }
}

/// The column list of a `CREATE TABLE` and what follows it.
pub open spec fn p_create_columns(s: TokenStream, i: int, table_name: Seq<char>) -> Result<
    (SpecStatement, int),
    Seq<char>,
> {
    match p_column(s, i) {
        Err(m) => Err(m),
        Ok((c, j)) => match p_more_columns(s, j) {
            Err(m) => Err(m),
            Ok((cs, k)) => if at(s, k, SpecToken::RightParentheses) {
                match adv(s, k) {
                    Err(m) => Err(m),
                    Ok(l) => p_end(
                        s,
                        l,
                        SpecStatement::CreateTable { table_name, column_list: seq![c] + cs },
                        create_end_message(),
                    ),
                }
            } else {
                Err("Expected ) after column definitions"@)
            },
        },
    }
}

/// `CREATE TABLE name ( column (, column)* ) ;` with the cursor on
/// `CREATE`.
pub open spec fn p_create(s: TokenStream, i: int) -> Result<(SpecStatement, int), Seq<char>> {
    match adv(s, i) {
        Err(m) => Err(m),
        Ok(j) => if at(s, j, SpecToken::Keyword(Keyword::Table)) {
            match adv(s, j) {
                Err(m) => Err(m),
                Ok(k) => match cur(s, k) {
                    Some(SpecToken::Identifier(name)) => match adv(s, k) {
                        Err(m) => Err(m),
                        Ok(l) => if at(s, l, SpecToken::LeftParentheses) {
                            match adv(s, l) {
                                Err(m) => Err(m),
                                Ok(o) => p_create_columns(s, o, name),
                            }
                        } else {
                            Err("Expected ( after table name"@)
                        },
                    },
                    _ => Err("Expected table name after CREATE TABLE"@),
                },
            }
        } else {
            Err("Expected TABLE after CREATE"@)
        },
    }
}

/// A statement, chosen by its first token.
pub open spec fn p_statement(s: TokenStream, i: int) -> Result<(SpecStatement, int), Seq<char>> {
    match cur(s, i) {
        None => Err("Empty input"@),
        Some(t) => if t == SpecToken::Keyword(Keyword::Select) {
            p_select(s, i)
        } else if t == SpecToken::Keyword(Keyword::Create) {
            p_create(s, i)
        } else {
            Err("Expected SELECT or CREATE, got "@ + token_text(t))
        },
    }
}

/// The statement that a query text holds, or the message of the first
/// error met on the way.
pub open spec fn parse_query(cs: Seq<char>) -> Result<SpecStatement, Seq<char>> {
    let s = tokenize_spec(cs);
    if s.toks.len() == 0 && s.err is Some {
        Err(s.err->Some_0)
    } else {
        match p_statement(s, 0) {
            Ok((st, _)) => Ok(st),
            Err(m) => Err(m),
        }
    }
}

} // verus!
