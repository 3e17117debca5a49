//! The parser: a cursor over the token stream with one token of lookahead,
//! an operator-precedence expression parser, and a recursive-descent parser
//! for statements that hands each expression to the former.
use vstd::prelude::*;
use crate::grammar::{
    adv, at, binary_operator_of, cur, literal_of, p_column, p_constraints, p_create, p_create_columns,
    p_db_type, p_expr, p_expr_list, p_extend, p_infix, p_more_columns, p_more_exprs, p_prefix,
    p_select, p_statement, parse_query, postfix_operator_of, precedence, prefix_operator_of,
    prepend,
};
use crate::statement::{
    exprs_view, BinaryOperator, Constraint, DBType, Expression, SpecConstraint, Statement, TableColumn,
    UnaryOperator,
};
use crate::token::{Keyword, SpecToken, Token};
use crate::tokenizer::{TokenStream, Tokenizer};

verus! {

/// The value of an optional token.
pub open spec fn token_opt_view(t: Option<Token>) -> Option<SpecToken> {
    match t {
        Some(x) => Some(x@),
        None => None,
    }
}

/// A parser over the tokens of one query.
pub struct Parser {
    tokenizer: Tokenizer,
    current_token: Option<Token>,
    stream: Ghost<TokenStream>,
    index: Ghost<int>,
}

impl Parser {
    /// The tokens that the parser reads, from the one under the cursor when
    /// it was made.
    pub closed spec fn stream(&self) -> TokenStream {
        self.stream@
    }

    /// The index in [`Parser::stream`] of the token under the cursor.
    pub closed spec fn index(&self) -> int {
        self.index@
    }

    /// The cursor agrees with the stream: the current token is the one at
    /// the index, and the tokenizer holds what follows it.
    pub closed spec fn wf(&self) -> bool {
        let s = self.stream@;
        let i = self.index@;
        &&& self.tokenizer.wf()
        &&& 0 <= i <= s.toks.len()
        &&& token_opt_view(self.current_token) == cur(s, i)
        &&& i < s.toks.len() ==> self.tokenizer.rest().toks == s.toks.skip(i + 1)
            && self.tokenizer.rest().err == s.err
        &&& i == s.toks.len() ==> s.err is None && self.tokenizer.done()
    }

    /// A parser whose cursor is on the first token that `tokenizer` hands
    /// out. Fails with the tokenizer's error if that comes first.
    pub fn new(tokenizer: Tokenizer) -> (r: Result<Parser, String>)
        requires
            tokenizer.wf(),
        ensures
            tokenizer.rest().toks.len() == 0 && tokenizer.rest().err is Some ==> (r matches Err(e)
                && e@ == tokenizer.rest().err->Some_0),
            !(tokenizer.rest().toks.len() == 0 && tokenizer.rest().err is Some) ==> (r matches Ok(p)
                && p.wf() && p.stream() == tokenizer.rest() && p.index() == 0),
    {
        let ghost s = tokenizer.rest();
        let mut tokenizer = tokenizer;
        let current_token = match tokenizer.next() {
            Some(Ok(token)) => Some(token),
            Some(Err(e)) => return Err(e),
            None => None,
        };
        proof {
            if s.toks.len() > 0 {
                assert(s.toks.skip(1) =~= tokenizer.rest().toks);
            }
        }
        Ok(Parser { tokenizer, current_token, stream: Ghost(s), index: Ghost(0) })
    }

    /// Moves the cursor to the next token.
    fn advance_token(&mut self) -> (r: Result<(), String>)
        requires
            old(self).wf(),
            old(self).index() < old(self).stream().toks.len(),
        ensures
            final(self).stream() == old(self).stream(),
            match adv(old(self).stream(), old(self).index()) {
                Ok(j) => r is Ok && final(self).wf() && final(self).index() == j,
                Err(m) => r matches Err(e) && e@ == m,
            },
    {
        let ghost s = self.stream();
        let ghost i = self.index();
        match self.tokenizer.next() {
            Some(Ok(token)) => {
                proof {
                    let x = self.tokenizer.rest().toks;
                    assert(s.toks.skip(i + 1) == seq![token@] + x);
                    assert((seq![token@] + x)[0] == token@);
                    assert(s.toks.skip(i + 1).len() >= 1);
                    assert(s.toks[i + 1] == s.toks.skip(i + 1)[0]);
                    assert((seq![token@] + x).skip(1) =~= x);
                    assert(s.toks.skip(i + 1).skip(1) =~= s.toks.skip(i + 2));
                }
                self.current_token = Some(token);
            },
            Some(Err(e)) => {
                return Err(e);
            },
            None => {
                self.current_token = None;
            },
        }
        self.index = Ghost(i + 1);
        Ok(())
    }

    /// The binding rank of the token under the cursor.
    fn get_precedence(&self) -> (r: u8)
        requires
            self.wf(),
        ensures
            r == precedence(cur(self.stream(), self.index())),
    {
        match &self.current_token {
            Some(token) => match token {
                Token::Keyword(Keyword::Asc) | Token::Keyword(Keyword::Desc) => 1,
                Token::Keyword(Keyword::Or) => 2,
                Token::Keyword(Keyword::And) => 3,
                Token::Equal | Token::NotEqual | Token::GreaterThan | Token::GreaterThanOrEqual
                | Token::LessThan | Token::LessThanOrEqual => 4,
                Token::Plus | Token::Minus => 5,
                Token::Star | Token::Divide => 6,
                _ => 0,
            },
            None => 0,
        }
    }
}

impl Parser {
    /// One prefix form: a literal, an identifier, a parenthesised
    /// expression, or a prefix operator with its operand.
    fn parse_prefix(&mut self) -> (r: Result<Expression, String>)
        requires
            old(self).wf(),
        ensures
            final(self).stream() == old(self).stream(),
            match p_prefix(old(self).stream(), old(self).index()) {
                Ok((e, j)) => r matches Ok(x) && x@ == e && final(self).wf() && final(self).index() == j,
                Err(m) => r matches Err(x) && x@ == m,
            },
            r is Ok ==> old(self).index() < final(self).index() <= old(self).stream().toks.len(),
        decreases old(self).stream().toks.len() - old(self).index(), 0int,
    {
        let token = match &self.current_token {
            None => return Err("Unexpected end of input".to_owned()),
            Some(token) => token,
        };
        if let Some(e) = literal_expression(token) {
            if let Err(m) = self.advance_token() {
                return Err(m);
            }
            return Ok(e);
        }
        if let Some(operator) = prefix_operator(token) {
            if let Err(m) = self.advance_token() {
                return Err(m);
            }
            let operand = match self.parse_expression(6) {
                Ok(e) => e,
                Err(m) => return Err(m),
            };
            return Ok(Expression::UnaryOperation { operand: Box::new(operand), operator });
        }
        if let Token::LeftParentheses = token {
            if let Err(m) = self.advance_token() {
                return Err(m);
            }
            let expr = match self.parse_expression(0) {
                Ok(e) => e,
                Err(m) => return Err(m),
            };
            if let Some(Token::RightParentheses) = &self.current_token {
                if let Err(m) = self.advance_token() {
                    return Err(m);
                }
                return Ok(expr);
            }
            return Err("Expected closing parenthesis".to_owned());
        }
        let mut m = "Unexpected token in prefix position: ".to_owned();
        m.append(token.to_string().as_str());
        Err(m)
    }

    /// Applies the operator under the cursor to `left`. A binary operator
    /// takes a right operand parsed at its own rank.
    fn parse_infix(&mut self, left: Expression) -> (r: Result<Expression, String>)
        requires
            old(self).wf(),
        ensures
            final(self).stream() == old(self).stream(),
            match p_infix(old(self).stream(), left@, old(self).index()) {
                Ok((e, j)) => r matches Ok(x) && x@ == e && final(self).wf() && final(self).index() == j,
                Err(m) => r matches Err(x) && x@ == m,
            },
            r is Ok ==> old(self).index() < final(self).index() <= old(self).stream().toks.len(),
        decreases old(self).stream().toks.len() - old(self).index(), 0int,
    {
        let token = match &self.current_token {
            None => return Err("Unexpected end of input".to_owned()),
            Some(token) => token,
        };
        if let Some((operator, rank)) = binary_operator(token) {
            if let Err(m) = self.advance_token() {
                return Err(m);
            }
            let right = match self.parse_expression(rank) {
                Ok(e) => e,
                Err(m) => return Err(m),
            };
            return Ok(
                Expression::BinaryOperation {
                    left_operand: Box::new(left),
                    operator,
                    right_operand: Box::new(right),
                },
            );
        }
        if let Some(operator) = postfix_operator(token) {
            if let Err(m) = self.advance_token() {
                return Err(m);
            }
            return Ok(Expression::UnaryOperation { operand: Box::new(left), operator });
        }
        let mut m = "Unexpected token in infix position: ".to_owned();
        m.append(token.to_string().as_str());
        Err(m)
    }

    /// Parses an expression whose operators all bind tighter than
    /// `precedence`; 0 admits every operator.
    pub fn parse_expression(&mut self, precedence: u8) -> (r: Result<Expression, String>)
        requires
            old(self).wf(),
        ensures
            final(self).stream() == old(self).stream(),
            match p_expr(old(self).stream(), old(self).index(), precedence) {
                Ok((e, j)) => r matches Ok(x) && x@ == e && final(self).wf() && final(self).index() == j,
                Err(m) => r matches Err(x) && x@ == m,
            },
            r is Ok ==> old(self).index() < final(self).index() <= old(self).stream().toks.len(),
        decreases old(self).stream().toks.len() - old(self).index(), 1int,
    {
        let ghost s = self.stream();
        let ghost i = self.index();
        let mut left = match self.parse_prefix() {
            Ok(e) => e,
            Err(m) => return Err(m),
        };
        while precedence < self.get_precedence()
            invariant
                self.wf(),
                self.stream() == s,
                s == old(self).stream(),
                i == old(self).index(),
                i < self.index() <= s.toks.len(),
                p_expr(s, i, precedence) == p_extend(s, left@, self.index(), precedence),
            decreases s.toks.len() - self.index(),
        {
            left = match self.parse_infix(left) {
                Ok(e) => e,
                Err(m) => return Err(m),
            };
        }
        Ok(left)
    }
}

/// Putting `a` and then `b` in front of a list is putting `a + b` there.
pub proof fn lemma_prepend_twice<T>(a: Seq<T>, b: Seq<T>, r: Result<(Seq<T>, int), Seq<char>>)
    ensures
        prepend(a, prepend(b, r)) == prepend(a + b, r),
{
    if let Ok((ys, k)) = r {
        assert(a + (b + ys) =~= (a + b) + ys);
    }
}

/// The values of a list of constraints.
pub open spec fn constraints_view(v: Seq<Constraint>) -> Seq<SpecConstraint> {
    v.map_values(|c: Constraint| c@)
}

impl Parser {
    /// A comma-separated list of one or more expressions.
    fn parse_expression_list(&mut self) -> (r: Result<Vec<Expression>, String>)
        requires
            old(self).wf(),
        ensures
            final(self).stream() == old(self).stream(),
            match p_expr_list(old(self).stream(), old(self).index()) {
                Ok((es, j)) => r matches Ok(v) && exprs_view(v@) == es && final(self).wf()
                    && final(self).index() == j,
                Err(m) => r matches Err(x) && x@ == m,
            },
            r is Ok ==> old(self).index() < final(self).index() <= old(self).stream().toks.len(),
    {
        let ghost s = self.stream();
        let ghost i = self.index();
        let first = match self.parse_expression(0) {
            Ok(e) => e,
            Err(m) => return Err(m),
        };
        let mut out: Vec<Expression> = Vec::new();
        out.push(first);
        proof {
            assert(exprs_view(out@) =~= seq![first@]);
        }
        loop
            invariant
                self.wf(),
                self.stream() == s,
                s == old(self).stream(),
                i == old(self).index(),
                i < self.index() <= s.toks.len(),
                p_expr_list(s, i) == prepend(exprs_view(out@), p_more_exprs(s, self.index())),
            ensures
                self.wf(),
                self.stream() == s,
                i < self.index() <= s.toks.len(),
                p_expr_list(s, i) == Ok::<(Seq<crate::statement::SpecExpr>, int), Seq<char>>((exprs_view(out@), self.index())),
            decreases s.toks.len() - self.index(),
        {
            match &self.current_token {
                Some(Token::Comma) => {},
                _ => {
                    assert(exprs_view(out@) + Seq::empty() =~= exprs_view(out@));
                    break;
                },
            }
            if let Err(m) = self.advance_token() {
                return Err(m);
            }
            let e = match self.parse_expression(0) {
                Ok(e) => e,
                Err(m) => return Err(m),
            };
            proof {
                lemma_prepend_twice(exprs_view(out@), seq![e@], p_more_exprs(s, self.index()));
            }
            let ghost before = out@;
            out.push(e);
            proof {
                assert(exprs_view(out@) =~= exprs_view(before) + seq![e@]);
            }
        }
        Ok(out)
    }

    /// The rest of a `SELECT` statement, with the cursor on `SELECT`.
    #[verifier::spinoff_prover]
    #[verifier::rlimit(50)]
    fn parse_select_statement(&mut self) -> (r: Result<Statement, String>)
        requires
            old(self).wf(),
            at(old(self).stream(), old(self).index(), SpecToken::Keyword(Keyword::Select)),
        ensures
            final(self).stream() == old(self).stream(),
            match p_select(old(self).stream(), old(self).index()) {
                Ok((st, j)) => r matches Ok(x) && x@ == st && final(self).wf() && final(self).index() == j,
                Err(m) => r matches Err(x) && x@ == m,
            },
    {
        if let Err(m) = self.advance_token() {
            return Err(m);
        }
        let columns = if let Some(Token::Star) = &self.current_token {
            if let Err(m) = self.advance_token() {
                return Err(m);
            }
            let mut columns: Vec<Expression> = Vec::new();
            columns.push(Expression::Wildcard);
            proof {
                assert(exprs_view(columns@) =~= seq![crate::statement::SpecExpr::Wildcard]);
            }
            columns
        } else {
            match self.parse_expression_list() {
                Ok(v) => v,
                Err(m) => return Err(m),
            }
        };
        match &self.current_token {
            Some(Token::Keyword(Keyword::From)) => {},
            _ => return Err("Expected FROM clause in SELECT statement".to_owned()),
        }
        if let Err(m) = self.advance_token() {
            return Err(m);
        }
        let from = match &self.current_token {
            Some(Token::Identifier(name)) => name.clone(),
            _ => return Err("Expected table name after FROM".to_owned()),
        };
        if let Err(m) = self.advance_token() {
            return Err(m);
        }
        let where_clause = if let Some(Token::Keyword(Keyword::Where)) = &self.current_token {
            if let Err(m) = self.advance_token() {
                return Err(m);
            }
            match self.parse_expression(0) {
                Ok(e) => Some(e),
                Err(m) => return Err(m),
            }
        } else {
            None
        };
        let mut orderby: Vec<Expression> = Vec::new();
        if let Some(Token::Keyword(Keyword::Order)) = &self.current_token {
            if let Err(m) = self.advance_token() {
                return Err(m);
            }
            match &self.current_token {
                Some(Token::Keyword(Keyword::By)) => {},
                _ => return Err("Expected BY after ORDER".to_owned()),
            }
            if let Err(m) = self.advance_token() {
                return Err(m);
            }
            orderby = match self.parse_expression_list() {
                Ok(v) => v,
                Err(m) => return Err(m),
            };
        } else {
            proof {
                assert(exprs_view(orderby@) =~= Seq::empty());
            }
        }
        match &self.current_token {
            Some(Token::Semicolon) => {},
            _ => return Err("Expected semicolon at the end of the SELECT statement".to_owned()),
        }
        if let Err(m) = self.advance_token() {
            return Err(m);
        }
        Ok(Statement::Select { columns, from, where_clause, orderby })
    }

    /// `INT`, `BOOL` or `VARCHAR(n)`.
    fn parse_db_type(&mut self) -> (r: Result<DBType, String>)
        requires
            old(self).wf(),
        ensures
            final(self).stream() == old(self).stream(),
            match p_db_type(old(self).stream(), old(self).index()) {
                Ok((t, j)) => r == Ok::<DBType, String>(t) && final(self).wf() && final(self).index() == j,
                Err(m) => r matches Err(x) && x@ == m,
            },
            r is Ok ==> old(self).index() < final(self).index() <= old(self).stream().toks.len(),
    {
        let token = match &self.current_token {
            None => return Err("Unexpected end of input in type definition".to_owned()),
            Some(token) => token,
        };
        match token {
            Token::Keyword(Keyword::Int) => {
                if let Err(m) = self.advance_token() {
                    return Err(m);
                }
                Ok(DBType::Int)
            },
            Token::Keyword(Keyword::Bool) => {
                if let Err(m) = self.advance_token() {
                    return Err(m);
                }
                Ok(DBType::Bool)
            },
            Token::Keyword(Keyword::Varchar) => {
                if let Err(m) = self.advance_token() {
                    return Err(m);
                }
                match &self.current_token {
                    Some(Token::LeftParentheses) => {},
                    _ => return Err("Expected ( after VARCHAR".to_owned()),
                }
                if let Err(m) = self.advance_token() {
                    return Err(m);
                }
                let length = match &self.current_token {
                    Some(Token::Number(n)) => *n as usize,
                    _ => return Err("Expected number for VARCHAR length".to_owned()),
                };
                if let Err(m) = self.advance_token() {
                    return Err(m);
                }
                match &self.current_token {
                    Some(Token::RightParentheses) => {},
                    _ => return Err("Expected ) after VARCHAR length".to_owned()),
                }
                if let Err(m) = self.advance_token() {
                    return Err(m);
                }
                Ok(DBType::Varchar(length))
            },
            _ => {
                let mut m = "Expected data type, got ".to_owned();
                m.append(token.to_string().as_str());
                Err(m)
            },
        }
    }
}

impl Parser {
    /// A column definition: a name, a type, and its constraints up to the
    /// `,` or `)` that ends it.
    fn parse_column_definition(&mut self) -> (r: Result<TableColumn, String>)
        requires
            old(self).wf(),
        ensures
            final(self).stream() == old(self).stream(),
            match p_column(old(self).stream(), old(self).index()) {
                Ok((c, j)) => r matches Ok(x) && x@ == c && final(self).wf() && final(self).index() == j,
                Err(m) => r matches Err(x) && x@ == m,
            },
            r is Ok ==> old(self).index() < final(self).index() <= old(self).stream().toks.len(),
    {
        let ghost s = self.stream();
        let column_name = match &self.current_token {
            Some(Token::Identifier(name)) => name.clone(),
            _ => return Err("Expected column name".to_owned()),
        };
        if let Err(m) = self.advance_token() {
            return Err(m);
        }
        let column_type = match self.parse_db_type() {
            Ok(t) => t,
            Err(m) => return Err(m),
        };
        let ghost k = self.index();
        let ghost i = old(self).index();
        assert(p_column(s, i) == match p_constraints(s, k) {
            Ok((cs, l)) => Ok((crate::statement::SpecColumn { name: column_name@, column_type, constraints: cs }, l)),
            Err(m) => Err(m),
        });
        let mut constraints: Vec<Constraint> = Vec::new();
        proof {
            assert(prepend(constraints_view(constraints@), p_constraints(s, k)) == p_constraints(s, k)) by {
                lemma_prepend_twice(Seq::<SpecConstraint>::empty(), Seq::empty(), p_constraints(s, k));
                assert(Seq::<SpecConstraint>::empty() + Seq::empty() =~= Seq::<SpecConstraint>::empty());
                if let Ok((ys, l)) = p_constraints(s, k) {
                    assert(constraints_view(constraints@) + ys =~= ys);
                }
            }
        }
        loop
            invariant
                self.wf(),
                self.stream() == s,
                s == old(self).stream(),
                old(self).index() < k <= self.index() <= s.toks.len(),
                i == old(self).index(),
                p_constraints(s, k) == prepend(constraints_view(constraints@), p_constraints(s, self.index())),
                p_column(s, i) == match p_constraints(s, k) {
                    Ok((cs, l)) => Ok((crate::statement::SpecColumn { name: column_name@, column_type, constraints: cs }, l)),
                    Err(m) => Err(m),
                },
            ensures
                self.wf(),
                self.stream() == s,
                old(self).index() < self.index() <= s.toks.len(),
                p_constraints(s, k) == Ok::<(Seq<SpecConstraint>, int), Seq<char>>(
                    (constraints_view(constraints@), self.index()),
                ),
                p_column(s, i) == match p_constraints(s, k) {
                    Ok((cs, l)) => Ok((crate::statement::SpecColumn { name: column_name@, column_type, constraints: cs }, l)),
                    Err(m) => Err(m),
                },
            decreases s.toks.len() - self.index(),
        {
            let token = match &self.current_token {
                None => return Err("Unexpected end of input in column definition".to_owned()),
                Some(token) => token,
            };
            let constraint = match token {
                Token::Comma | Token::RightParentheses => {
                    assert(constraints_view(constraints@) + Seq::empty() =~= constraints_view(constraints@));
                    break;
                },
                Token::Keyword(Keyword::Primary) => {
                    if let Err(m) = self.advance_token() {
                        return Err(m);
                    }
                    match &self.current_token {
                        Some(Token::Keyword(Keyword::Key)) => {},
                        _ => return Err("Expected KEY after PRIMARY".to_owned()),
                    }
                    if let Err(m) = self.advance_token() {
                        return Err(m);
                    }
                    Constraint::PrimaryKey
                },
                Token::Keyword(Keyword::Not) => {
                    if let Err(m) = self.advance_token() {
                        return Err(m);
                    }
                    match &self.current_token {
                        Some(Token::Keyword(Keyword::Null)) => {},
                        _ => return Err("Expected NULL after NOT".to_owned()),
                    }
                    if let Err(m) = self.advance_token() {
                        return Err(m);
                    }
                    Constraint::NotNull
                },
                Token::Keyword(Keyword::Check) => {
                    if let Err(m) = self.advance_token() {
                        return Err(m);
                    }
                    match &self.current_token {
                        Some(Token::LeftParentheses) => {},
                        _ => return Err("Expected ( after CHECK".to_owned()),
                    }
                    if let Err(m) = self.advance_token() {
                        return Err(m);
                    }
                    let e = match self.parse_expression(0) {
                        Ok(e) => e,
                        Err(m) => return Err(m),
                    };
                    match &self.current_token {
                        Some(Token::RightParentheses) => {},
                        _ => return Err("Expected ) after CHECK expression".to_owned()),
                    }
                    if let Err(m) = self.advance_token() {
                        return Err(m);
                    }
                    Constraint::Check(e)
                },
                _ => {
                    let mut m = "Unexpected token in column definition: ".to_owned();
                    m.append(token.to_string().as_str());
                    return Err(m);
                },
            };
            proof {
                lemma_prepend_twice(constraints_view(constraints@), seq![constraint@], p_constraints(s, self.index()));
            }
            let ghost before = constraints@;
            constraints.push(constraint);
            proof {
                assert(constraints_view(constraints@) =~= constraints_view(before) + seq![constraint@]);
            }
        }
        Ok(TableColumn { column_name, column_type, constraints })
    }

    /// The rest of a `CREATE TABLE` statement, with the cursor on `CREATE`.
    fn parse_create_table_statement(&mut self) -> (r: Result<Statement, String>)
        requires
            old(self).wf(),
            at(old(self).stream(), old(self).index(), SpecToken::Keyword(Keyword::Create)),
        ensures
            final(self).stream() == old(self).stream(),
            match p_create(old(self).stream(), old(self).index()) {
                Ok((st, j)) => r matches Ok(x) && x@ == st && final(self).wf() && final(self).index() == j,
                Err(m) => r matches Err(x) && x@ == m,
            },
    {
        let ghost s = self.stream();
        if let Err(m) = self.advance_token() {
            return Err(m);
        }
        match &self.current_token {
            Some(Token::Keyword(Keyword::Table)) => {},
            _ => return Err("Expected TABLE after CREATE".to_owned()),
        }
        if let Err(m) = self.advance_token() {
            return Err(m);
        }
        let table_name = match &self.current_token {
            Some(Token::Identifier(name)) => name.clone(),
            _ => return Err("Expected table name after CREATE TABLE".to_owned()),
        };
        if let Err(m) = self.advance_token() {
            return Err(m);
        }
        match &self.current_token {
            Some(Token::LeftParentheses) => {},
            _ => return Err("Expected ( after table name".to_owned()),
        }
        if let Err(m) = self.advance_token() {
            return Err(m);
        }
        let ghost o = self.index();
        let first = match self.parse_column_definition() {
            Ok(c) => c,
            Err(m) => return Err(m),
        };
        let ghost j = self.index();
        let ghost first_v = first@;
        let ghost i = old(self).index();
        assert(p_create(s, i) == p_create_columns(s, o, table_name@));
        assert(p_column(s, o) == Ok::<(crate::statement::SpecColumn, int), Seq<char>>((first_v, j)));
        let mut column_list: Vec<TableColumn> = Vec::new();
        column_list.push(first);
        proof {
            assert(column_list@.map_values(|c: TableColumn| c@) =~= seq![first@]);
        }
        loop
            invariant
                self.wf(),
                self.stream() == s,
                s == old(self).stream(),
                j <= self.index() <= s.toks.len(),
                i == old(self).index(),
                p_more_columns(s, j) == prepend(
                    column_list@.map_values(|c: TableColumn| c@).drop_first(),
                    p_more_columns(s, self.index()),
                ),
                column_list@.len() >= 1,
                column_list@.map_values(|c: TableColumn| c@)[0] == first_v,
                p_create(s, i) == p_create_columns(s, o, table_name@),
                p_column(s, o) == Ok::<(crate::statement::SpecColumn, int), Seq<char>>((first_v, j)),
            ensures
                self.wf(),
                self.stream() == s,
                column_list@.len() >= 1,
                column_list@.map_values(|c: TableColumn| c@)[0] == first_v,
                p_create(s, i) == p_create_columns(s, o, table_name@),
                p_column(s, o) == Ok::<(crate::statement::SpecColumn, int), Seq<char>>((first_v, j)),
                p_more_columns(s, j) == Ok::<(Seq<crate::statement::SpecColumn>, int), Seq<char>>(
                    (column_list@.map_values(|c: TableColumn| c@).drop_first(), self.index()),
                ),
            decreases s.toks.len() - self.index(),
        {
            match &self.current_token {
                Some(Token::Comma) => {},
                _ => {
                    assert(column_list@.map_values(|c: TableColumn| c@).drop_first() + Seq::empty()
                        =~= column_list@.map_values(|c: TableColumn| c@).drop_first());
                    break;
                },
            }
            if let Err(m) = self.advance_token() {
                return Err(m);
            }
            let c = match self.parse_column_definition() {
                Ok(c) => c,
                Err(m) => return Err(m),
            };
            proof {
                lemma_prepend_twice(
                    column_list@.map_values(|c: TableColumn| c@).drop_first(),
                    seq![c@],
                    p_more_columns(s, self.index()),
                );
            }
            let ghost before = column_list@;
            column_list.push(c);
            proof {
                assert(column_list@.map_values(|c: TableColumn| c@).drop_first() =~= before.map_values(
                    |c: TableColumn| c@,
                ).drop_first() + seq![c@]);
            }
        }
        proof {
            let v = column_list@.map_values(|c: TableColumn| c@);
            assert(v =~= seq![first_v] + v.drop_first());
        }
        match &self.current_token {
            Some(Token::RightParentheses) => {},
            _ => return Err("Expected ) after column definitions".to_owned()),
        }
        if let Err(m) = self.advance_token() {
            return Err(m);
        }
        match &self.current_token {
            Some(Token::Semicolon) => {},
            _ => return Err("Expected semicolon at the end of the CREATE TABLE statement".to_owned()),
        }
        if let Err(m) = self.advance_token() {
            return Err(m);
        }
        Ok(Statement::CreateTable { table_name, column_list })
    }

    /// Parses one statement, chosen by its first token: `SELECT` or
    /// `CREATE`.
    pub fn parse_statement(&mut self) -> (r: Result<Statement, String>)
        requires
            old(self).wf(),
        ensures
            final(self).stream() == old(self).stream(),
            match p_statement(old(self).stream(), old(self).index()) {
                Ok((st, j)) => r matches Ok(x) && x@ == st && final(self).wf() && final(self).index() == j,
                Err(m) => r matches Err(x) && x@ == m,
            },
    {
        match &self.current_token {
            Some(Token::Keyword(Keyword::Select)) => self.parse_select_statement(),
            Some(Token::Keyword(Keyword::Create)) => self.parse_create_table_statement(),
            Some(token) => {
                let mut m = "Expected SELECT or CREATE, got ".to_owned();
                m.append(token.to_string().as_str());
                Err(m)
            },
            None => Err("Empty input".to_owned()),
        }
    }
}

/// Parses the statement that `input` holds. Fails with a message on the
/// first lexical or syntactic error.
pub fn build_statement(input: &str) -> (r: Result<Statement, String>)
    ensures
        match parse_query(input@) {
            Ok(st) => r matches Ok(x) && x@ == st,
            Err(m) => r matches Err(x) && x@ == m,
        },
{
    let tokenizer = Tokenizer::new(input);
    let mut parser = match Parser::new(tokenizer) {
        Ok(p) => p,
        Err(m) => return Err(m),
    };
    parser.parse_statement()
}

/// The expression that a token makes on its own.
fn literal_expression(t: &Token) -> (r: Option<Expression>)
    ensures
        match literal_of(t@) {
            Some(e) => r matches Some(x) && x@ == e,
            None => r is None,
        },
{
    match t {
        Token::Number(n) => Some(Expression::Number(*n)),
        Token::String(s) => Some(Expression::String(s.clone())),
        Token::Identifier(s) => Some(Expression::Identifier(s.clone())),
        Token::Keyword(Keyword::True) => Some(Expression::Bool(true)),
        Token::Keyword(Keyword::False) => Some(Expression::Bool(false)),
        _ => None,
    }
}

/// The unary operator that a token stands for before its operand.
fn prefix_operator(t: &Token) -> (r: Option<UnaryOperator>)
    ensures
        r == prefix_operator_of(t@),
{
    match t {
        Token::Keyword(Keyword::Not) => Some(UnaryOperator::Not),
        Token::Plus => Some(UnaryOperator::Plus),
        Token::Minus => Some(UnaryOperator::Minus),
        _ => None,
    }
}

/// The unary operator that a token stands for after its operand.
fn postfix_operator(t: &Token) -> (r: Option<UnaryOperator>)
    ensures
        r == postfix_operator_of(t@),
{
    match t {
        Token::Keyword(Keyword::Asc) => Some(UnaryOperator::Asc),
        Token::Keyword(Keyword::Desc) => Some(UnaryOperator::Desc),
        _ => None,
    }
}

/// The binary operator that a token stands for, with its rank.
fn binary_operator(t: &Token) -> (r: Option<(BinaryOperator, u8)>)
    ensures
        match binary_operator_of(t@) {
            Some(op) => r == Some((op, precedence(Some(t@)))),
            None => r is None,
        },
{
    match t {
        Token::Plus => Some((BinaryOperator::Plus, 5)),
        Token::Minus => Some((BinaryOperator::Minus, 5)),
        Token::Star => Some((BinaryOperator::Multiply, 6)),
        Token::Divide => Some((BinaryOperator::Divide, 6)),
        Token::Equal => Some((BinaryOperator::Equal, 4)),
        Token::NotEqual => Some((BinaryOperator::NotEqual, 4)),
        Token::GreaterThan => Some((BinaryOperator::GreaterThan, 4)),
        Token::GreaterThanOrEqual => Some((BinaryOperator::GreaterThanOrEqual, 4)),
        Token::LessThan => Some((BinaryOperator::LessThan, 4)),
        Token::LessThanOrEqual => Some((BinaryOperator::LessThanOrEqual, 4)),
        Token::Keyword(Keyword::And) => Some((BinaryOperator::And, 3)),
        Token::Keyword(Keyword::Or) => Some((BinaryOperator::Or, 2)),
        _ => None,
    }
}

} // verus!
