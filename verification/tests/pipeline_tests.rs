use kalk::ast::{Expr, Stmt};
use kalk::lexer::{lex, TokenKind};
use kalk::parser::{parse, CalcError, Context};

fn literal(value: &str) -> Box<Expr> {
    Box::new(Expr::Literal(value.to_string()))
}

fn var(identifier: &str) -> Box<Expr> {
    Box::new(Expr::Var(identifier.to_string()))
}

fn binary(left: Box<Expr>, op: TokenKind, right: Box<Expr>) -> Box<Expr> {
    Box::new(Expr::Binary(left, op, right))
}

fn parse_fresh(input: &str) -> Vec<Stmt> {
    let mut context = Context::new();
    parse(&mut context, input).unwrap()
}

#[test]
fn precedence_product_binds_tighter_than_sum() {
    // 1+2*3 parses as 1+(2*3), not (1+2)*3.
    assert_eq!(
        parse_fresh("1+2*3"),
        vec![Stmt::Expr(binary(
            literal("1"),
            TokenKind::Plus,
            binary(literal("2"), TokenKind::Star, literal("3"))
        ))]
    );
}

#[test]
fn precedence_group_overrides() {
    // (1+2)*3 keeps the explicit grouping as a distinct node.
    assert_eq!(
        parse_fresh("(1+2)*3"),
        vec![Stmt::Expr(binary(
            Box::new(Expr::Group(binary(
                literal("1"),
                TokenKind::Plus,
                literal("2")
            ))),
            TokenKind::Star,
            literal("3")
        ))]
    );
}

#[test]
fn exponent_is_right_associative() {
    // 2^3^2 parses as 2^(3^2).
    assert_eq!(
        parse_fresh("2^3^2"),
        vec![Stmt::Expr(binary(
            literal("2"),
            TokenKind::Power,
            binary(literal("3"), TokenKind::Power, literal("2"))
        ))]
    );
}

#[test]
fn unary_minus_wraps_the_exponent() {
    // -2^2 parses as -(2^2), not (-2)^2.
    assert_eq!(
        parse_fresh("-2^2"),
        vec![Stmt::Expr(Box::new(Expr::Unary(
            TokenKind::Minus,
            binary(literal("2"), TokenKind::Power, literal("2"))
        )))]
    );
}

#[test]
fn implicit_multiplication_literal_identifier() {
    // 3x parses as 3*x.
    assert_eq!(
        parse_fresh("3x"),
        vec![Stmt::Expr(binary(literal("3"), TokenKind::Star, var("x")))]
    );
}

#[test]
fn implicit_multiplication_unknown_identifier_splits() {
    // An unknown multi-character identifier splits into single-character
    // variables: xy parses as x*y.
    assert_eq!(
        parse_fresh("xy"),
        vec![Stmt::Expr(binary(var("x"), TokenKind::Star, var("y")))]
    );
}

#[test]
fn known_function_followed_by_literal_is_a_call() {
    // sqrt64 parses as sqrt(64), because sqrt names a builtin function.
    assert_eq!(
        parse_fresh("sqrt64"),
        vec![Stmt::Expr(Box::new(Expr::FnCall(
            String::from("sqrt"),
            vec![*literal("64")]
        )))]
    );
}

#[test]
fn pipes_parse_as_abs_call() {
    assert_eq!(
        parse_fresh("|x|"),
        vec![Stmt::Expr(Box::new(Expr::FnCall(
            String::from("abs"),
            vec![*var("x")]
        )))]
    );
}

#[test]
fn angle_unit_suffix_wraps_the_primary() {
    assert_eq!(
        parse_fresh("90 deg"),
        vec![Stmt::Expr(Box::new(Expr::Unit(
            literal("90"),
            TokenKind::Deg
        )))]
    );
    assert_eq!(
        parse_fresh("2 rad"),
        vec![Stmt::Expr(Box::new(Expr::Unit(
            literal("2"),
            TokenKind::Rad
        )))]
    );
}

#[test]
fn fn_decl_is_visible_to_later_statements() {
    // Declaring f makes "f(...)" parse as a call in the same session, and
    // known variables no longer split character by character.
    let mut context = Context::new();
    let decl = parse(&mut context, "f(x) = x + 1").unwrap();
    assert_eq!(
        decl,
        vec![Stmt::FnDecl(
            String::from("f"),
            vec![String::from("x")],
            binary(var("x"), TokenKind::Plus, literal("1"))
        )]
    );
    assert!(context.symbol_table.contains_fn("f"));

    let call = parse(&mut context, "f(4)").unwrap();
    assert_eq!(
        call,
        vec![Stmt::Expr(Box::new(Expr::FnCall(
            String::from("f"),
            vec![*literal("4")]
        )))]
    );
}

#[test]
fn var_decl_statement_shape() {
    assert_eq!(
        parse_fresh("x = 3"),
        vec![Stmt::VarDecl(String::from("x"), literal("3"))]
    );
}

#[test]
fn reparsing_identical_input_gives_identical_asts() {
    // No hidden session state: two sessions with the same (empty) symbol
    // environment parse the same text into structurally identical trees, and
    // an expression statement leaves the environment unchanged, so the same
    // session re-parses it identically too.
    let input = "1+2*(3-4/5)^2!";
    let first = parse_fresh(input);
    let second = parse_fresh(input);
    assert_eq!(first, second);

    let mut context = Context::new();
    let third = parse(&mut context, input).unwrap();
    let fourth = parse(&mut context, input).unwrap();
    assert_eq!(third, fourth);
    assert_eq!(first, third);
}

#[test]
fn unclosed_group_reports_the_expected_token() {
    let mut context = Context::new();
    let err = parse(&mut context, "(1").unwrap_err();
    assert!(matches!(
        err,
        CalcError::UnexpectedToken(TokenKind::ClosedParenthesis)
    ));
}

#[test]
fn missing_call_parenthesis_reports_the_expected_token() {
    let mut context = Context::new();
    parse(&mut context, "f(x) = x").unwrap();
    let err = parse(&mut context, "f(1,2").unwrap_err();
    assert!(matches!(
        err,
        CalcError::UnexpectedToken(TokenKind::ClosedParenthesis)
    ));
}

#[test]
fn lexer_token_kinds_and_values() {
    let tokens = lex("f(x) = 2x + sqrt(4) deg");
    let kinds: Vec<TokenKind> = tokens.iter().map(|t| t.kind).collect();
    assert_eq!(
        kinds,
        vec![
            TokenKind::Identifier,
            TokenKind::OpenParenthesis,
            TokenKind::Identifier,
            TokenKind::ClosedParenthesis,
            TokenKind::Equals,
            TokenKind::Literal,
            TokenKind::Identifier,
            TokenKind::Plus,
            TokenKind::Identifier,
            TokenKind::OpenParenthesis,
            TokenKind::Literal,
            TokenKind::ClosedParenthesis,
            TokenKind::Deg,
            TokenKind::EOF,
        ]
    );
    assert_eq!(tokens[0].value, "f");
    assert_eq!(tokens[5].value, "2");
    assert_eq!(tokens[8].value, "sqrt");
}

#[test]
fn lexer_reads_decimal_literals_whole() {
    let tokens = lex("2.5!");
    assert_eq!(tokens[0].kind, TokenKind::Literal);
    assert_eq!(tokens[0].value, "2.5");
    assert_eq!(tokens[1].kind, TokenKind::Exclamation);
    assert_eq!(tokens[2].kind, TokenKind::EOF);
}

#[test]
fn factorial_binds_tighter_than_exponent() {
    // 2^3! parses as 2^(3!).
    assert_eq!(
        parse_fresh("2^3!"),
        vec![Stmt::Expr(binary(
            literal("2"),
            TokenKind::Power,
            Box::new(Expr::Unary(TokenKind::Exclamation, literal("3")))
        ))]
    );
}

#[test]
fn call_with_two_arguments() {
    let mut context = Context::new();
    parse(&mut context, "g(a,b) = a + b").unwrap();
    let call = parse(&mut context, "g(1,2)").unwrap();
    assert_eq!(
        call,
        vec![Stmt::Expr(Box::new(Expr::FnCall(
            String::from("g"),
            vec![*literal("1"), *literal("2")]
        )))]
    );
}

#[test]
fn non_variable_arguments_are_dropped_from_parameters() {
    // In a declaration read back from a call shape, only bare variable
    // arguments become parameters.
    let mut context = Context::new();
    let decl = parse(&mut context, "h(a,1) = a").unwrap();
    assert_eq!(
        decl,
        vec![Stmt::FnDecl(String::from("h"), vec![String::from("a")], var("a"))]
    );
}
