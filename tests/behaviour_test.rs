use sql_parser::{
    build_statement, BinaryOperator, Constraint, DBType, Expression, Keyword, Parser, Statement,
    TableColumn, Token, Tokenizer, UnaryOperator,
};

fn expr(input: &str) -> Result<Expression, String> {
    Parser::new(Tokenizer::new(input)).and_then(|mut p| p.parse_expression(0))
}

fn num(n: u64) -> Box<Expression> {
    Box::new(Expression::Number(n))
}

fn ident(s: &str) -> Box<Expression> {
    Box::new(Expression::Identifier(s.to_string()))
}

fn bin(l: Box<Expression>, op: BinaryOperator, r: Box<Expression>) -> Expression {
    Expression::BinaryOperation { left_operand: l, operator: op, right_operand: r }
}

fn tokens(input: &str) -> Result<Vec<Token>, String> {
    Tokenizer::new(input).collect_tokens()
}

fn error_of(input: &str) -> String {
    match build_statement(input) {
        Ok(st) => panic!("expected an error for {:?}, got {:?}", input, st),
        Err(e) => e,
    }
}

#[test]
fn precedence_multiply_binds_tighter() {
    assert_eq!(
        expr("2 + 3 * 4").unwrap(),
        bin(num(2), BinaryOperator::Plus, Box::new(bin(num(3), BinaryOperator::Multiply, num(4))))
    );
}

#[test]
fn grouping_overrides_precedence() {
    assert_eq!(
        expr("(2 + 3) * 4").unwrap(),
        bin(Box::new(bin(num(2), BinaryOperator::Plus, num(3))), BinaryOperator::Multiply, num(4))
    );
}

#[test]
fn subtraction_is_left_associative() {
    assert_eq!(
        expr("a - b - c").unwrap(),
        bin(
            Box::new(bin(ident("a"), BinaryOperator::Minus, ident("b"))),
            BinaryOperator::Minus,
            ident("c")
        )
    );
}

#[test]
fn and_binds_tighter_than_or() {
    assert_eq!(
        expr("a OR b AND c").unwrap(),
        bin(
            ident("a"),
            BinaryOperator::Or,
            Box::new(bin(ident("b"), BinaryOperator::And, ident("c")))
        )
    );
}

#[test]
fn not_applies_before_comparison() {
    assert_eq!(
        expr("NOT flag = TRUE").unwrap(),
        bin(
            Box::new(Expression::UnaryOperation { operand: ident("flag"), operator: UnaryOperator::Not }),
            BinaryOperator::Equal,
            Box::new(Expression::Bool(true))
        )
    );
}

#[test]
fn select_star_exact_tree() {
    assert_eq!(
        build_statement("SELECT * FROM users;").unwrap(),
        Statement::Select {
            columns: vec![Expression::Wildcard],
            from: "users".to_string(),
            where_clause: None,
            orderby: vec![],
        }
    );
}

#[test]
fn select_where_greater_than() {
    match build_statement("SELECT id FROM users WHERE age > 18;").unwrap() {
        Statement::Select { where_clause, .. } => assert_eq!(
            where_clause,
            Some(bin(ident("age"), BinaryOperator::GreaterThan, num(18)))
        ),
        other => panic!("unexpected {:?}", other),
    }
}

#[test]
fn order_by_terms_with_directions() {
    match build_statement("SELECT id, salary FROM users ORDER BY salary - 2 * 10 ASC, id DESC;").unwrap() {
        Statement::Select { orderby, .. } => assert_eq!(
            orderby,
            vec![
                Expression::UnaryOperation {
                    operand: Box::new(bin(
                        ident("salary"),
                        BinaryOperator::Minus,
                        Box::new(bin(num(2), BinaryOperator::Multiply, num(10)))
                    )),
                    operator: UnaryOperator::Asc,
                },
                Expression::UnaryOperation { operand: ident("id"), operator: UnaryOperator::Desc },
            ]
        ),
        other => panic!("unexpected {:?}", other),
    }
}

#[test]
fn create_table_two_columns_with_constraints() {
    assert_eq!(
        build_statement("CREATE TABLE t(id INT PRIMARY KEY, age INT CHECK(age >= 18));").unwrap(),
        Statement::CreateTable {
            table_name: "t".to_string(),
            column_list: vec![
                TableColumn {
                    column_name: "id".to_string(),
                    column_type: DBType::Int,
                    constraints: vec![Constraint::PrimaryKey],
                },
                TableColumn {
                    column_name: "age".to_string(),
                    column_type: DBType::Int,
                    constraints: vec![Constraint::Check(bin(
                        ident("age"),
                        BinaryOperator::GreaterThanOrEqual,
                        num(18)
                    ))],
                },
            ],
        }
    );
}

#[test]
fn create_table_many_constraints_and_types() {
    let st = build_statement(
        "CREATE TABLE c(email VARCHAR(255) NOT NULL, j BOOL, age INT CHECK(age >= 18) CHECK(age <= 65));",
    )
    .unwrap();
    match st {
        Statement::CreateTable { column_list, .. } => {
            assert_eq!(column_list.len(), 3);
            assert_eq!(column_list[0].column_type, DBType::Varchar(255));
            assert_eq!(column_list[0].constraints, vec![Constraint::NotNull]);
            assert_eq!(column_list[1].column_type, DBType::Bool);
            assert!(column_list[1].constraints.is_empty());
            assert_eq!(column_list[2].constraints.len(), 2);
        },
        other => panic!("unexpected {:?}", other),
    }
}

#[test]
fn listed_bad_inputs_fail_with_a_message() {
    assert!(!error_of("SELECT id;").is_empty());
    assert!(!error_of("CREATE TABLE t(id INT)").is_empty());
    assert!(!expr("(5 + 3").unwrap_err().is_empty());
    assert!(!error_of("CREATE TABLE t(id INT, age INVALID);").is_empty());
}

#[test]
fn parsing_twice_gives_equal_trees() {
    let q = "SELECT a, b * 2 FROM t WHERE NOT a = 'x' OR b < 3 ORDER BY a DESC;";
    assert_eq!(build_statement(q), build_statement(q));
    let bad = "SELECT a FROM;";
    assert_eq!(build_statement(bad), build_statement(bad));
}

#[test]
fn empty_input_is_one_end_marker_then_nothing() {
    let mut t = Tokenizer::new("");
    assert_eq!(t.next(), Some(Ok(Token::Eof)));
    assert_eq!(t.next(), None);
    assert_eq!(t.next(), None);
}

#[test]
fn unterminated_and_mismatched_strings_differ() {
    let unterminated = tokens("'unclosed").unwrap_err();
    let mismatched = tokens("'a\"").unwrap_err();
    assert_eq!(unterminated, "Unterminated string starting with '");
    assert_eq!(mismatched, "Mismatched quotes: string started with ' but found \"");
    assert_ne!(unterminated, mismatched);
}

#[test]
fn number_overflow_becomes_invalid_marker() {
    assert_eq!(
        tokens("18446744073709551615 18446744073709551616").unwrap(),
        vec![Token::Number(u64::MAX), Token::Invalid('0'), Token::Eof]
    );
}

#[test]
fn keywords_ignore_case_and_identifiers_keep_it() {
    assert_eq!(
        tokens("select From Users_2").unwrap(),
        vec![
            Token::Keyword(Keyword::Select),
            Token::Keyword(Keyword::From),
            Token::Identifier("Users_2".to_string()),
            Token::Eof
        ]
    );
}

#[test]
fn whitespace_of_every_kind_is_skipped() {
    assert_eq!(
        tokens("\t\n SELECT\u{3000}x").unwrap(),
        vec![Token::Keyword(Keyword::Select), Token::Identifier("x".to_string()), Token::Eof]
    );
}

#[test]
fn bang_alone_is_invalid() {
    assert_eq!(
        tokens("! != !x").unwrap(),
        vec![
            Token::Invalid('!'),
            Token::NotEqual,
            Token::Invalid('!'),
            Token::Identifier("x".to_string()),
            Token::Eof
        ]
    );
}

#[test]
fn punctuation_tokens() {
    assert_eq!(
        tokens("( ) , ; # é").unwrap(),
        vec![
            Token::LeftParentheses,
            Token::RightParentheses,
            Token::Comma,
            Token::Semicolon,
            Token::Invalid('#'),
            Token::Invalid('é'),
            Token::Eof
        ]
    );
}

#[test]
fn identifier_continues_with_unicode_letters() {
    assert_eq!(
        tokens("nameé1").unwrap(),
        vec![Token::Identifier("nameé1".to_string()), Token::Eof]
    );
}

#[test]
fn lexical_error_stops_the_statement() {
    assert_eq!(error_of("SELECT 'abc FROM t;"), "Unterminated string starting with '");
}

#[test]
fn statement_error_messages() {
    assert_eq!(error_of("SELECT id;"), "Expected FROM clause in SELECT statement");
    assert_eq!(error_of("SELECT id FROM 5;"), "Expected table name after FROM");
    assert_eq!(error_of("SELECT id FROM t ORDER id;"), "Expected BY after ORDER");
    assert_eq!(error_of("SELECT id FROM t"), "Expected semicolon at the end of the SELECT statement");
    assert_eq!(error_of("DROP TABLE t;"), "Expected SELECT or CREATE, got \"DROP\"");
    assert_eq!(error_of(""), "Expected SELECT or CREATE, got Eof");
    assert_eq!(error_of("CREATE t;"), "Expected TABLE after CREATE");
    assert_eq!(error_of("CREATE TABLE (id INT);"), "Expected table name after CREATE TABLE");
    assert_eq!(error_of("CREATE TABLE t id INT;"), "Expected ( after table name");
    assert_eq!(error_of("CREATE TABLE t(5 INT);"), "Expected column name");
    assert_eq!(error_of("CREATE TABLE t(id INT;"), "Unexpected token in column definition: ;");
    assert_eq!(error_of("CREATE TABLE t(id INT PRIMARY);"), "Expected KEY after PRIMARY");
    assert_eq!(error_of("CREATE TABLE t(id INT NOT KEY);"), "Expected NULL after NOT");
    assert_eq!(error_of("CREATE TABLE t(id INT CHECK id);"), "Expected ( after CHECK");
    assert_eq!(error_of("CREATE TABLE t(id INT CHECK(id > 1 id));"), "Expected ) after CHECK expression");
    assert_eq!(error_of("CREATE TABLE t(id VARCHAR 5);"), "Expected ( after VARCHAR");
    assert_eq!(error_of("CREATE TABLE t(id VARCHAR(x));"), "Expected number for VARCHAR length");
    assert_eq!(error_of("CREATE TABLE t(id VARCHAR(5 6));"), "Expected ) after VARCHAR length");
    assert_eq!(error_of("CREATE TABLE t(id FLOAT);"), "Expected data type, got \"FLOAT\"");
    assert_eq!(
        error_of("CREATE TABLE t(id INT)"),
        "Expected semicolon at the end of the CREATE TABLE statement"
    );
    assert_eq!(error_of("CREATE TABLE t(id INT, x BOOL;"), "Unexpected token in column definition: ;");
    assert_eq!(error_of("CREATE TABLE t(id INT, x BOOL"), "Unexpected token in column definition: Eof");
}

#[test]
fn expression_error_messages() {
    assert_eq!(expr("(5 + 3").unwrap_err(), "Expected closing parenthesis");
    assert_eq!(expr("5 + ").unwrap_err(), "Unexpected token in prefix position: Eof");
    assert_eq!(expr("* 2").unwrap_err(), "Unexpected token in prefix position: *");
    assert_eq!(
        error_of("SELECT id FROM users ORDER BY;"),
        "Unexpected token in prefix position: ;"
    );
}

#[test]
fn exhausted_tokenizer_gives_empty_input_and_end_of_input() {
    let mut t = Tokenizer::new("   ");
    assert_eq!(t.next(), Some(Ok(Token::Eof)));
    let mut p = Parser::new(t).unwrap();
    assert_eq!(p.parse_statement().unwrap_err(), "Empty input");
    let mut t = Tokenizer::new("");
    assert_eq!(t.next(), Some(Ok(Token::Eof)));
    let mut p = Parser::new(t).unwrap();
    assert_eq!(p.parse_expression(0).unwrap_err(), "Unexpected end of input");
}

#[test]
fn parser_new_fails_on_leading_string_error() {
    assert_eq!(
        Parser::new(Tokenizer::new("\"x'")).err(),
        Some("Mismatched quotes: string started with \" but found '".to_string())
    );
}

#[test]
fn rendering_of_tokens_and_trees() {
    assert_eq!(Token::Number(4207).to_string(), "4207");
    assert_eq!(Token::Number(0).to_string(), "0");
    assert_eq!(Token::Identifier("ab".to_string()).to_string(), "\"ab\"");
    assert_eq!(Token::Keyword(Keyword::Varchar).to_string(), "Varchar");
    assert_eq!(Token::GreaterThanOrEqual.to_string(), ">=");
    assert_eq!(Token::Invalid('@').to_string(), "@");
    assert_eq!(Keyword::Null.to_string(), "Null");
    assert_eq!(BinaryOperator::And.to_string(), "AND");
    assert_eq!(UnaryOperator::Desc.to_string(), "DESC");
    let e = expr("-x * (3 + 'a') >= 10 AND NOT TRUE").unwrap();
    assert_eq!(e.to_string(), "((((- x) * (3 + \"a\")) >= 10) AND (NOT true))");
    assert_eq!(Expression::Wildcard.to_string(), "*");
}

#[test]
fn keyword_lookup_by_upper_case_spelling() {
    assert_eq!(Keyword::from_upper("VARCHAR"), Some(Keyword::Varchar));
    assert_eq!(Keyword::from_upper("varchar"), None);
    assert_eq!(Keyword::from_upper("NOT NULL"), None);
    assert_eq!(Keyword::from_upper(""), None);
}

#[test]
fn star_after_select_is_wildcard_elsewhere_multiply() {
    match build_statement("SELECT * FROM t WHERE a * 2 > 3;").unwrap() {
        Statement::Select { columns, where_clause, .. } => {
            assert_eq!(columns, vec![Expression::Wildcard]);
            assert_eq!(
                where_clause,
                Some(bin(
                    Box::new(bin(ident("a"), BinaryOperator::Multiply, num(2))),
                    BinaryOperator::GreaterThan,
                    num(3)
                ))
            );
        },
        other => panic!("unexpected {:?}", other),
    }
}
