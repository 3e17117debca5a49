//! Tokens: the words, literals and punctuation that the tokenizer produces.
use vstd::prelude::*;
use crate::text::{decimal_text, push_char, push_decimal, same_text};

verus! {

/// The reserved words of the query language. They are matched without
/// regard to case.
#[derive(Clone, Copy, Debug, PartialEq, Eq, Structural)]
pub enum Keyword {
    Select,
    Create,
    Table,
    Where,
    Order,
    By,
    Asc,
    Desc,
    From,
    And,
    Or,
    Not,
    True,
    False,
    Primary,
    Key,
    Check,
    Int,
    Bool,
    Varchar,
    Null,
}

/// One token of a query. Tokens keep no source position.
#[derive(Clone, Debug, PartialEq)]
pub enum Token {
    Keyword(Keyword),
    Identifier(String),
    String(String),
    Number(u64),
    Invalid(char),
    RightParentheses,
    LeftParentheses,
    GreaterThan,
    GreaterThanOrEqual,
    LessThan,
    LessThanOrEqual,
    Equal,
    NotEqual,
    Star,
    Divide,
    Minus,
    Plus,
    Comma,
    Semicolon,
    Eof,
}

/// The mathematical value of a [`Token`]: texts become character sequences.
pub enum SpecToken {
    Keyword(Keyword),
    Identifier(Seq<char>),
    Str(Seq<char>),
    Number(u64),
    Invalid(char),
    RightParentheses,
    LeftParentheses,
    GreaterThan,
    GreaterThanOrEqual,
    LessThan,
    LessThanOrEqual,
    Equal,
    NotEqual,
    Star,
    Divide,
    Minus,
    Plus,
    Comma,
    Semicolon,
    Eof,
}

impl View for Token {
    type V = SpecToken;

    open spec fn view(&self) -> SpecToken {
        match self {
            Token::Keyword(k) => SpecToken::Keyword(*k),
            Token::Identifier(s) => SpecToken::Identifier(s@),
            Token::String(s) => SpecToken::Str(s@),
            Token::Number(n) => SpecToken::Number(*n),
            Token::Invalid(c) => SpecToken::Invalid(*c),
            Token::RightParentheses => SpecToken::RightParentheses,
            Token::LeftParentheses => SpecToken::LeftParentheses,
            Token::GreaterThan => SpecToken::GreaterThan,
            Token::GreaterThanOrEqual => SpecToken::GreaterThanOrEqual,
            Token::LessThan => SpecToken::LessThan,
            Token::LessThanOrEqual => SpecToken::LessThanOrEqual,
            Token::Equal => SpecToken::Equal,
            Token::NotEqual => SpecToken::NotEqual,
            Token::Star => SpecToken::Star,
            Token::Divide => SpecToken::Divide,
            Token::Minus => SpecToken::Minus,
            Token::Plus => SpecToken::Plus,
            Token::Comma => SpecToken::Comma,
            Token::Semicolon => SpecToken::Semicolon,
            Token::Eof => SpecToken::Eof,
        }
    }
}

/// The keyword spelled exactly `s` (in upper case), if any.
pub open spec fn keyword_spec(s: Seq<char>) -> Option<Keyword> {
    if s == "SELECT"@ {
        Some(Keyword::Select)
    } else if s == "CREATE"@ {
        Some(Keyword::Create)
    } else if s == "TABLE"@ {
        Some(Keyword::Table)
    } else if s == "WHERE"@ {
        Some(Keyword::Where)
    } else if s == "ORDER"@ {
        Some(Keyword::Order)
    } else if s == "BY"@ {
        Some(Keyword::By)
    } else if s == "ASC"@ {
        Some(Keyword::Asc)
    } else if s == "DESC"@ {
        Some(Keyword::Desc)
    } else if s == "FROM"@ {
        Some(Keyword::From)
    } else if s == "AND"@ {
        Some(Keyword::And)
    } else if s == "OR"@ {
        Some(Keyword::Or)
    } else if s == "NOT"@ {
        Some(Keyword::Not)
    } else if s == "TRUE"@ {
        Some(Keyword::True)
    } else if s == "FALSE"@ {
        Some(Keyword::False)
    } else if s == "PRIMARY"@ {
        Some(Keyword::Primary)
    } else if s == "KEY"@ {
        Some(Keyword::Key)
    } else if s == "CHECK"@ {
        Some(Keyword::Check)
    } else if s == "INT"@ {
        Some(Keyword::Int)
    } else if s == "BOOL"@ {
        Some(Keyword::Bool)
    } else if s == "VARCHAR"@ {
        Some(Keyword::Varchar)
    } else if s == "NULL"@ {
        Some(Keyword::Null)
    } else {
        None
    }
}

/// The name under which a keyword is shown.
pub open spec fn keyword_name(k: Keyword) -> Seq<char> {
    match k {
        Keyword::Select => "Select"@,
        Keyword::Create => "Create"@,
        Keyword::Table => "Table"@,
        Keyword::Where => "Where"@,
        Keyword::Order => "Order"@,
        Keyword::By => "By"@,
        Keyword::Asc => "Asc"@,
        Keyword::Desc => "Desc"@,
        Keyword::From => "From"@,
        Keyword::And => "And"@,
        Keyword::Or => "Or"@,
        Keyword::Not => "Not"@,
        Keyword::True => "True"@,
        Keyword::False => "False"@,
        Keyword::Primary => "Primary"@,
        Keyword::Key => "Key"@,
        Keyword::Check => "Check"@,
        Keyword::Int => "Int"@,
        Keyword::Bool => "Bool"@,
        Keyword::Varchar => "Varchar"@,
        Keyword::Null => "Null"@,
    }
}

/// How a token is shown in messages: keywords by name, identifiers and
/// string literals between double quotes, numbers in decimal, punctuation
/// as written.
pub open spec fn token_text(t: SpecToken) -> Seq<char> {
    match t {
        SpecToken::Keyword(k) => keyword_name(k),
        SpecToken::Identifier(s) => seq!['"'] + s + seq!['"'],
        SpecToken::Str(s) => seq!['"'] + s + seq!['"'],
        SpecToken::Number(n) => decimal_text(n as nat),
        SpecToken::Invalid(c) => seq![c],
        SpecToken::RightParentheses => ")"@,
        SpecToken::LeftParentheses => "("@,
        SpecToken::GreaterThan => ">"@,
        SpecToken::GreaterThanOrEqual => ">="@,
        SpecToken::LessThan => "<"@,
        SpecToken::LessThanOrEqual => "<="@,
        SpecToken::Equal => "="@,
        SpecToken::NotEqual => "!="@,
        SpecToken::Star => "*"@,
        SpecToken::Divide => "/"@,
        SpecToken::Minus => "-"@,
        SpecToken::Plus => "+"@,
        SpecToken::Comma => ","@,
        SpecToken::Semicolon => ";"@,
        SpecToken::Eof => "Eof"@,
    }
}

impl Keyword {
    /// The keyword whose upper-case spelling is `upper`, if there is one.
    pub fn from_upper(upper: &str) -> (r: Option<Keyword>)
        ensures
            r == keyword_spec(upper@),
    {
        if same_text(upper, "SELECT") {
            return Some(Keyword::Select);
        }
        if same_text(upper, "CREATE") {
            return Some(Keyword::Create);
        }
        if same_text(upper, "TABLE") {
            return Some(Keyword::Table);
        }
        if same_text(upper, "WHERE") {
            return Some(Keyword::Where);
        }
        if same_text(upper, "ORDER") {
            return Some(Keyword::Order);
        }
        if same_text(upper, "BY") {
            return Some(Keyword::By);
        }
        if same_text(upper, "ASC") {
            return Some(Keyword::Asc);
        }
        if same_text(upper, "DESC") {
            return Some(Keyword::Desc);
        }
        if same_text(upper, "FROM") {
            return Some(Keyword::From);
        }
        if same_text(upper, "AND") {
            return Some(Keyword::And);
        }
        if same_text(upper, "OR") {
            return Some(Keyword::Or);
        }
        if same_text(upper, "NOT") {
            return Some(Keyword::Not);
        }
        if same_text(upper, "TRUE") {
            return Some(Keyword::True);
        }
        if same_text(upper, "FALSE") {
            return Some(Keyword::False);
        }
        if same_text(upper, "PRIMARY") {
            return Some(Keyword::Primary);
        }
        if same_text(upper, "KEY") {
            return Some(Keyword::Key);
        }
        if same_text(upper, "CHECK") {
            return Some(Keyword::Check);
        }
        if same_text(upper, "INT") {
            return Some(Keyword::Int);
        }
        if same_text(upper, "BOOL") {
            return Some(Keyword::Bool);
        }
        if same_text(upper, "VARCHAR") {
            return Some(Keyword::Varchar);
        }
        if same_text(upper, "NULL") {
            return Some(Keyword::Null);
        }
        None
    }

    /// The name of the keyword, as shown in messages.
    pub fn to_string(&self) -> (r: String)
        ensures
            r@ == keyword_name(*self),
    {
        match self {
            Keyword::Select => "Select".to_owned(),
            Keyword::Create => "Create".to_owned(),
            Keyword::Table => "Table".to_owned(),
            Keyword::Where => "Where".to_owned(),
            Keyword::Order => "Order".to_owned(),
            Keyword::By => "By".to_owned(),
            Keyword::Asc => "Asc".to_owned(),
            Keyword::Desc => "Desc".to_owned(),
            Keyword::From => "From".to_owned(),
            Keyword::And => "And".to_owned(),
            Keyword::Or => "Or".to_owned(),
            Keyword::Not => "Not".to_owned(),
            Keyword::True => "True".to_owned(),
            Keyword::False => "False".to_owned(),
            Keyword::Primary => "Primary".to_owned(),
            Keyword::Key => "Key".to_owned(),
            Keyword::Check => "Check".to_owned(),
            Keyword::Int => "Int".to_owned(),
            Keyword::Bool => "Bool".to_owned(),
            Keyword::Varchar => "Varchar".to_owned(),
            Keyword::Null => "Null".to_owned(),
        }
    }
}

impl Token {
    /// The token as shown in messages.
    pub fn to_string(&self) -> (r: String)
        ensures
            r@ == token_text(self@),
    {
        match self {
            Token::Keyword(k) => k.to_string(),
            Token::Identifier(s) | Token::String(s) => {
                let mut r = String::new();
                push_char(&mut r, '"');
                r.append(s.as_str());
                push_char(&mut r, '"');
                proof {
                    assert(r@ =~= seq!['"'] + s@ + seq!['"']);
                }
                r
            },
            Token::Number(n) => {
                let mut r = String::new();
                push_decimal(&mut r, *n);
                proof {
                    assert(r@ =~= decimal_text(*n as nat));
                }
                r
            },
            Token::Invalid(c) => {
                let mut r = String::new();
                push_char(&mut r, *c);
                proof {
                    assert(r@ =~= seq![*c]);
                }
                r
            },
            Token::RightParentheses => ")".to_owned(),
            Token::LeftParentheses => "(".to_owned(),
            Token::GreaterThan => ">".to_owned(),
            Token::GreaterThanOrEqual => ">=".to_owned(),
            Token::LessThan => "<".to_owned(),
            Token::LessThanOrEqual => "<=".to_owned(),
            Token::Equal => "=".to_owned(),
            Token::NotEqual => "!=".to_owned(),
            Token::Star => "*".to_owned(),
            Token::Divide => "/".to_owned(),
            Token::Minus => "-".to_owned(),
            Token::Plus => "+".to_owned(),
            Token::Comma => ",".to_owned(),
            Token::Semicolon => ";".to_owned(),
            Token::Eof => "Eof".to_owned(),
        }
    }
}

} // verus!
