use kalk::ast::{Expr, Stmt};
use kalk::lexer::{Token, TokenKind};
use kalk::parser::{parse_stmt, CalcError, Context};

fn token(kind: TokenKind, value: &str) -> Token {
    Token {
        kind,
        value: value.to_string(),
    }
}

fn literal(value: &str) -> Box<Expr> {
    Box::new(Expr::Literal(value.to_string()))
}

fn var(identifier: &str) -> Box<Expr> {
    Box::new(Expr::Var(identifier.to_string()))
}

fn binary(left: Box<Expr>, op: TokenKind, right: Box<Expr>) -> Box<Expr> {
    Box::new(Expr::Binary(left, op, right))
}

fn unary(op: TokenKind, expr: Box<Expr>) -> Box<Expr> {
    Box::new(Expr::Unary(op, expr))
}

fn group(expr: Box<Expr>) -> Box<Expr> {
    Box::new(Expr::Group(expr))
}

fn parse_with_context(context: &mut Context, tokens: Vec<Token>) -> Result<Stmt, CalcError> {
    context.tokens = tokens;

    parse_stmt(context)
}

fn parse(tokens: Vec<Token>) -> Result<Stmt, CalcError> {
    let mut context = Context::new();
    context.tokens = tokens;

    parse_stmt(&mut context)
}

#[test]
fn test_var() {
    // x
    let tokens = vec![token(TokenKind::Identifier, "x"), token(TokenKind::EOF, "")];

    assert_eq!(parse(tokens).unwrap(), Stmt::Expr(var("x")));
}

#[test]
fn test_binary() {
    // 1+2*(3-4/5)
    let tokens = vec![
        token(TokenKind::Literal, "1"),
        token(TokenKind::Plus, ""),
        token(TokenKind::Literal, "2"),
        token(TokenKind::Star, ""),
        token(TokenKind::OpenParenthesis, ""),
        token(TokenKind::Literal, "3"),
        token(TokenKind::Minus, ""),
        token(TokenKind::Literal, "4"),
        token(TokenKind::Slash, ""),
        token(TokenKind::Literal, "5"),
        token(TokenKind::ClosedParenthesis, ""),
    ];

    assert_eq!(
        parse(tokens).unwrap(),
        Stmt::Expr(binary(
            literal("1"),
            TokenKind::Plus,
            binary(
                literal("2"),
                TokenKind::Star,
                group(binary(
                    literal("3"),
                    TokenKind::Minus,
                    binary(literal("4"), TokenKind::Slash, literal("5"))
                ))
            )
        ))
    );
}

#[test]
fn test_pow() {
    let tokens = vec![
        token(TokenKind::Literal, "1"),
        token(TokenKind::Star, ""),
        token(TokenKind::Literal, "2"),
        token(TokenKind::Power, ""),
        token(TokenKind::Literal, "3"),
        token(TokenKind::Power, ""),
        token(TokenKind::Literal, "4"),
        token(TokenKind::Plus, ""),
        token(TokenKind::Literal, "5"),
    ];

    assert_eq!(
        parse(tokens).unwrap(),
        Stmt::Expr(binary(
            binary(
                literal("1"),
                TokenKind::Star,
                binary(
                    literal("2"),
                    TokenKind::Power,
                    binary(literal("3"), TokenKind::Power, literal("4")),
                ),
            ),
            TokenKind::Plus,
            literal("5")
        )),
    );
}

#[test]
fn test_var_decl() {
    let tokens = vec![
        token(TokenKind::Identifier, "x"),
        token(TokenKind::Equals, ""),
        token(TokenKind::Literal, "1"),
        token(TokenKind::Plus, ""),
        token(TokenKind::Literal, "2"),
    ];

    assert_eq!(
        parse(tokens).unwrap(),
        Stmt::VarDecl(
            String::from("x"),
            binary(literal("1"), TokenKind::Plus, literal("2"))
        )
    );
}

#[test]
fn test_fn_decl() {
    let tokens = vec![
        token(TokenKind::Identifier, "f"),
        token(TokenKind::OpenParenthesis, ""),
        token(TokenKind::Identifier, "x"),
        token(TokenKind::ClosedParenthesis, ""),
        token(TokenKind::Equals, ""),
        token(TokenKind::Literal, "1"),
        token(TokenKind::Plus, ""),
        token(TokenKind::Literal, "2"),
    ];

    assert_eq!(
        parse(tokens).unwrap(),
        Stmt::FnDecl(
            String::from("f"),
            vec![String::from("x")],
            binary(literal("1"), TokenKind::Plus, literal("2"))
        )
    );
}

#[test]
fn test_fn_call() {
    let tokens = vec![
        token(TokenKind::Identifier, "f"),
        token(TokenKind::OpenParenthesis, ""),
        token(TokenKind::Literal, "1"),
        token(TokenKind::Plus, ""),
        token(TokenKind::Literal, "2"),
        token(TokenKind::ClosedParenthesis, ""),
        token(TokenKind::Plus, ""),
        token(TokenKind::Literal, "3"),
    ];

    let mut context = Context::new();

    // Add the function to the symbol table first, in order to prevent errors.
    context.symbol_table.set(
        "f()",
        Stmt::FnDecl(String::from("f"), vec![String::from("x")], literal("1")),
    );

    assert_eq!(
        parse_with_context(&mut context, tokens).unwrap(),
        Stmt::Expr(binary(
            Box::new(Expr::FnCall(
                String::from("f"),
                vec![*binary(literal("1"), TokenKind::Plus, literal("2"))]
            )),
            TokenKind::Plus,
            literal("3")
        ))
    );
}

#[test]
fn test_unary_with_deg_unit() {
    let tokens = vec![
        token(TokenKind::Minus, ""),
        token(TokenKind::Literal, "1"),
        token(TokenKind::Deg, ""),
    ];

    assert_eq!(
        parse(tokens).unwrap(),
        Stmt::Expr(unary(
            TokenKind::Minus,
            Box::new(Expr::Unit(literal("1"), TokenKind::Deg))
        ))
    );
}

#[test]
fn test_unary_with_rad_unit() {
    let tokens = vec![
        token(TokenKind::Minus, ""),
        token(TokenKind::Literal, "1"),
        token(TokenKind::Rad, ""),
    ];

    assert_eq!(
        parse(tokens).unwrap(),
        Stmt::Expr(unary(
            TokenKind::Minus,
            Box::new(Expr::Unit(literal("1"), TokenKind::Rad))
        ))
    );
}
