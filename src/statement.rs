//! Syntax trees: expressions, column definitions and statements, with their
//! mathematical values and their textual rendering.
use vstd::prelude::*;
use crate::text::{decimal_text, push_char, push_decimal};

verus! {

/// Operators that join two operands.
#[derive(Clone, Copy, Debug, PartialEq, Eq, Structural)]
pub enum BinaryOperator {
    Plus,
    Minus,
    Multiply,
    Divide,
    GreaterThan,
    GreaterThanOrEqual,
    LessThan,
    LessThanOrEqual,
    Equal,
    NotEqual,
    And,
    Or,
}

/// Operators that apply to one operand: `NOT`, sign prefixes, and the
/// `ASC` / `DESC` suffixes of an ordering term.
#[derive(Clone, Copy, Debug, PartialEq, Eq, Structural)]
pub enum UnaryOperator {
    Not,
    Plus,
    Minus,
    Asc,
    Desc,
}

/// An expression tree. Each node owns its children.
#[derive(Debug, PartialEq)]
pub enum Expression {
    BinaryOperation {
        left_operand: Box<Expression>,
        operator: BinaryOperator,
        right_operand: Box<Expression>,
    },
    UnaryOperation { operand: Box<Expression>, operator: UnaryOperator },
    Number(u64),
    Bool(bool),
    Identifier(String),
    String(String),
    Wildcard,
}

/// The column types of a table.
#[derive(Clone, Copy, Debug, PartialEq, Eq, Structural)]
pub enum DBType {
    Int,
    Varchar(usize),
    Bool,
}

/// A rule that limits the values of a column.
#[derive(Debug, PartialEq)]
pub enum Constraint {
    NotNull,
    PrimaryKey,
    Check(Expression),
}

/// The definition of one column of a new table.
#[derive(Debug, PartialEq)]
pub struct TableColumn {
    pub column_name: String,
    pub column_type: DBType,
    pub constraints: Vec<Constraint>,
}

/// A parsed statement.
#[derive(Debug, PartialEq)]
pub enum Statement {
    Select {
        columns: Vec<Expression>,
        from: String,
        where_clause: Option<Expression>,
        orderby: Vec<Expression>,
    },
    CreateTable { table_name: String, column_list: Vec<TableColumn> },
}

/// The mathematical value of an [`Expression`].
pub enum SpecExpr {
    Binary(Box<SpecExpr>, BinaryOperator, Box<SpecExpr>),
    Unary(Box<SpecExpr>, UnaryOperator),
    Number(u64),
    Bool(bool),
    Identifier(Seq<char>),
    Str(Seq<char>),
    Wildcard,
}

/// The mathematical value of a [`Constraint`].
pub enum SpecConstraint {
    NotNull,
    PrimaryKey,
    Check(SpecExpr),
}

/// The mathematical value of a [`TableColumn`].
pub struct SpecColumn {
    pub name: Seq<char>,
    pub column_type: DBType,
    pub constraints: Seq<SpecConstraint>,
}

/// The mathematical value of a [`Statement`].
pub enum SpecStatement {
    Select {
        columns: Seq<SpecExpr>,
        from: Seq<char>,
        where_clause: Option<SpecExpr>,
        orderby: Seq<SpecExpr>,
    },
    CreateTable { table_name: Seq<char>, column_list: Seq<SpecColumn> },
}

pub open spec fn expr_view(e: &Expression) -> SpecExpr
    decreases e,
{
    match e {
        Expression::BinaryOperation { left_operand, operator, right_operand } => SpecExpr::Binary(
            Box::new(expr_view(left_operand)),
            *operator,
            Box::new(expr_view(right_operand)),
        ),
        Expression::UnaryOperation { operand, operator } => SpecExpr::Unary(
            Box::new(expr_view(operand)),
            *operator,
        ),
        Expression::Number(n) => SpecExpr::Number(*n),
        Expression::Bool(b) => SpecExpr::Bool(*b),
        Expression::Identifier(s) => SpecExpr::Identifier(s@),
        Expression::String(s) => SpecExpr::Str(s@),
        Expression::Wildcard => SpecExpr::Wildcard,
    }
}

impl View for Expression {
    type V = SpecExpr;

    open spec fn view(&self) -> SpecExpr {
        expr_view(self)
    }
}

impl View for Constraint {
    type V = SpecConstraint;

    open spec fn view(&self) -> SpecConstraint {
        match self {
            Constraint::NotNull => SpecConstraint::NotNull,
            Constraint::PrimaryKey => SpecConstraint::PrimaryKey,
            Constraint::Check(e) => SpecConstraint::Check(e@),
        }
    }
}

/// The values of a list of expressions.
pub open spec fn exprs_view(v: Seq<Expression>) -> Seq<SpecExpr> {
    v.map_values(|e: Expression| e@)
}

impl View for TableColumn {
    type V = SpecColumn;

    open spec fn view(&self) -> SpecColumn {
        SpecColumn {
            name: self.column_name@,
            column_type: self.column_type,
            constraints: self.constraints@.map_values(|c: Constraint| c@),
        }
    }
}

impl View for Statement {
    type V = SpecStatement;

    open spec fn view(&self) -> SpecStatement {
        match self {
            Statement::Select { columns, from, where_clause, orderby } => SpecStatement::Select {
                columns: exprs_view(columns@),
                from: from@,
                where_clause: match where_clause {
                    Some(w) => Some(w@),
                    None => None,
                },
                orderby: exprs_view(orderby@),
            },
            Statement::CreateTable { table_name, column_list } => SpecStatement::CreateTable {
                table_name: table_name@,
                column_list: column_list@.map_values(|c: TableColumn| c@),
            },
        }
    }
}

pub open spec fn binary_operator_text(op: BinaryOperator) -> Seq<char> {
    match op {
        BinaryOperator::GreaterThan => ">"@,
        BinaryOperator::GreaterThanOrEqual => ">="@,
        BinaryOperator::LessThan => "<"@,
        BinaryOperator::LessThanOrEqual => "<="@,
        BinaryOperator::Equal => "="@,
        BinaryOperator::NotEqual => "!="@,
        BinaryOperator::Multiply => "*"@,
        BinaryOperator::Divide => "/"@,
        BinaryOperator::Minus => "-"@,
        BinaryOperator::Plus => "+"@,
        BinaryOperator::And => "AND"@,
        BinaryOperator::Or => "OR"@,
    }
}

pub open spec fn unary_operator_text(op: UnaryOperator) -> Seq<char> {
    match op {
        UnaryOperator::Minus => "-"@,
        UnaryOperator::Plus => "+"@,
        UnaryOperator::Desc => "DESC"@,
        UnaryOperator::Asc => "ASC"@,
        UnaryOperator::Not => "NOT"@,
    }
}

/// The text of an expression: every operation in parentheses, the operator
/// of a unary operation first, string literals in double quotes.
pub open spec fn expr_text(e: SpecExpr) -> Seq<char>
    decreases e,
{
    match e {
        SpecExpr::Binary(l, op, r) => "("@ + expr_text(*l) + " "@ + binary_operator_text(op) + " "@
            + expr_text(*r) + ")"@,
        SpecExpr::Unary(x, op) => "("@ + unary_operator_text(op) + " "@ + expr_text(*x) + ")"@,
        SpecExpr::Number(n) => decimal_text(n as nat),
        SpecExpr::Bool(b) => if b {
            "true"@
        } else {
            "false"@
        },
        SpecExpr::Identifier(s) => s,
        SpecExpr::Str(s) => seq!['"'] + s + seq!['"'],
        SpecExpr::Wildcard => "*"@,
    }
}

impl BinaryOperator {
    /// The operator as written in a query.
    pub fn to_string(&self) -> (r: String)
        ensures
            r@ == binary_operator_text(*self),
    {
        match self {
            BinaryOperator::GreaterThan => ">".to_owned(),
            BinaryOperator::GreaterThanOrEqual => ">=".to_owned(),
            BinaryOperator::LessThan => "<".to_owned(),
            BinaryOperator::LessThanOrEqual => "<=".to_owned(),
            BinaryOperator::Equal => "=".to_owned(),
            BinaryOperator::NotEqual => "!=".to_owned(),
            BinaryOperator::Multiply => "*".to_owned(),
            BinaryOperator::Divide => "/".to_owned(),
            BinaryOperator::Minus => "-".to_owned(),
            BinaryOperator::Plus => "+".to_owned(),
            BinaryOperator::And => "AND".to_owned(),
            BinaryOperator::Or => "OR".to_owned(),
        }
    }
}

impl UnaryOperator {
    /// The operator as written in a query.
    pub fn to_string(&self) -> (r: String)
        ensures
            r@ == unary_operator_text(*self),
    {
        match self {
            UnaryOperator::Minus => "-".to_owned(),
            UnaryOperator::Plus => "+".to_owned(),
            UnaryOperator::Desc => "DESC".to_owned(),
            UnaryOperator::Asc => "ASC".to_owned(),
            UnaryOperator::Not => "NOT".to_owned(),
        }
    }
}

impl Expression {
    /// Appends the text of this expression to `out`.
    fn write_to(&self, out: &mut String)
        ensures
            final(out)@ == old(out)@ + expr_text(self@),
        decreases self,
    {
        match self {
            Expression::BinaryOperation { left_operand, operator, right_operand } => {
                out.append("(");
                left_operand.write_to(out);
                out.append(" ");
                out.append(operator.to_string().as_str());
                out.append(" ");
                right_operand.write_to(out);
                out.append(")");
            },
            Expression::UnaryOperation { operand, operator } => {
                out.append("(");
                out.append(operator.to_string().as_str());
                out.append(" ");
                operand.write_to(out);
                out.append(")");
            },
            Expression::Number(n) => push_decimal(out, *n),
            Expression::Bool(b) => {
                if *b {
                    out.append("true");
                } else {
                    out.append("false");
                }
            },
            Expression::Identifier(s) => out.append(s.as_str()),
            Expression::String(s) => {
                push_char(out, '"');
                out.append(s.as_str());
                push_char(out, '"');
            },
            Expression::Wildcard => out.append("*"),
        }
        proof {
            assert(out@ =~= old(out)@ + expr_text(self@));
        }
    }

    /// The text of the expression.
    pub fn to_string(&self) -> (r: String)
        ensures
            r@ == expr_text(self@),
    {
        let mut r = String::new();
        self.write_to(&mut r);
        proof {
            assert(r@ =~= expr_text(self@));
        }
        r
    }
}

} // verus!
