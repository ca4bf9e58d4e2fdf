//! The parser: a recursive-descent, precedence-climbing consumer of the token
//! stream.
//!
//! Every parsing function is pinned by a spec-level mirror: the executable
//! function returns exactly what the corresponding `spec_parse_*` function
//! says for the session's tokens, cursor and symbol environment. Parsing is
//! context-sensitive: whether `sqrt64` is a call and whether `xy` is one
//! variable or `x*y` is decided against the symbol environment, and function
//! declarations are inserted into it during parsing.

use vstd::prelude::*;

use crate::ast::{exprs_view, params_view, Expr, ExprSpec, Stmt, StmtSpec};
use crate::lexer::{spec_eof_token, Token, TokenKind, TokenSpec};
use crate::symbol_table::{spec_contains_fn, spec_contains_var, SymbolTable};

verus! {

/// Mathematical angle unit used when evaluating trigonometric functions.
#[derive(Debug, Clone, PartialEq, Eq, Structural)]
pub enum Unit {
    Radians,
    Degrees,
}

/// Error that occurred during parsing or evaluation.
#[derive(Debug, Clone)]
pub enum CalcError {
    IncorrectAmountOfArguments(usize, String, usize),
    InvalidNumberLiteral(String),
    InvalidOperator,
    InvalidUnit,
    UnexpectedToken(TokenKind),
    UndefinedFn(String),
    UndefinedVar(String),
    FactorialDomain,
    Unknown,
}

/// The mathematical image of a [`CalcError`].
pub ghost enum CalcErrorSpec {
    IncorrectAmountOfArguments(int, Seq<char>, int),
    InvalidNumberLiteral(Seq<char>),
    InvalidOperator,
    InvalidUnit,
    UnexpectedToken(TokenKind),
    UndefinedFn(Seq<char>),
    UndefinedVar(Seq<char>),
    FactorialDomain,
    Unknown,
}

impl DeepView for CalcError {
    type V = CalcErrorSpec;

    open spec fn deep_view(&self) -> CalcErrorSpec {
        match self {
            CalcError::IncorrectAmountOfArguments(expected, name, actual) => {
                CalcErrorSpec::IncorrectAmountOfArguments(*expected as int, name@, *actual as int)
            },
            CalcError::InvalidNumberLiteral(s) => CalcErrorSpec::InvalidNumberLiteral(s@),
            CalcError::InvalidOperator => CalcErrorSpec::InvalidOperator,
            CalcError::InvalidUnit => CalcErrorSpec::InvalidUnit,
            CalcError::UnexpectedToken(k) => CalcErrorSpec::UnexpectedToken(*k),
            CalcError::UndefinedFn(s) => CalcErrorSpec::UndefinedFn(s@),
            CalcError::UndefinedVar(s) => CalcErrorSpec::UndefinedVar(s@),
            CalcError::FactorialDomain => CalcErrorSpec::FactorialDomain,
            CalcError::Unknown => CalcErrorSpec::Unknown,
        }
    }
}

impl View for CalcError {
    type V = CalcErrorSpec;

    open spec fn view(&self) -> CalcErrorSpec {
        self.deep_view()
    }
}

/// The current state of a parsing/evaluation session: the token sequence, the
/// cursor into it, the symbol environment, and the ambient angle unit.
pub struct Context {
    pub tokens: Vec<Token>,
    pub pos: usize,
    pub symbol_table: SymbolTable,
    pub angle_unit: Unit,
}

impl Context {
    /// The cursor never stands past the end of the token sequence.
    pub open spec fn wf(&self) -> bool {
        self.pos <= self.tokens@.len()
    }

    /// A fresh session: no tokens, cursor at the start, an empty symbol
    /// environment, and radians as the ambient angle unit.
    pub fn new() -> (r: Context)
        ensures
            r.tokens@.len() == 0,
            r.pos == 0,
            r.symbol_table@ == Map::<Seq<char>, StmtSpec>::empty(),
            r.angle_unit == Unit::Radians,
            r.wf(),
    {
        Context {
            tokens: Vec::new(),
            pos: 0,
            symbol_table: SymbolTable::new(),
            angle_unit: Unit::Radians,
        }
    }

    /// Replaces the ambient angle unit, leaving the rest of the session as it
    /// was.
    pub fn set_angle_unit(self, unit: Unit) -> (r: Context)
        ensures
            r.angle_unit == unit,
            r.tokens == self.tokens,
            r.pos == self.pos,
            r.symbol_table == self.symbol_table,
    {
        Context { angle_unit: unit, ..self }
    }
}

/// The image of an expression-parse result.
pub open spec fn expr_res_view(r: Result<Expr, CalcError>) -> Result<ExprSpec, CalcErrorSpec> {
    match r {
        Ok(e) => Ok(e.deep_view()),
        Err(err) => Err(err.deep_view()),
    }
}

/// The image of a statement-parse result.
pub open spec fn stmt_res_view(r: Result<Stmt, CalcError>) -> Result<StmtSpec, CalcErrorSpec> {
    match r {
        Ok(s) => Ok(s.deep_view()),
        Err(err) => Err(err.deep_view()),
    }
}

/// The image of a whole-input parse result.
pub open spec fn stmts_res_view(r: Result<Vec<Stmt>, CalcError>) -> Result<
    Seq<StmtSpec>,
    CalcErrorSpec,
> {
    match r {
        Ok(v) => Ok(v.deep_view()),
        Err(err) => Err(err.deep_view()),
    }
}

/// What parsing one expression yields: the result and the cursor after it.
pub ghost struct EOut {
    pub r: Result<ExprSpec, CalcErrorSpec>,
    pub pos: int,
}

/// What parsing an argument list yields.
pub ghost struct AOut {
    pub r: Result<Seq<ExprSpec>, CalcErrorSpec>,
    pub pos: int,
}

/// What parsing one statement yields: the result, the cursor after it, and
/// the symbol environment after it (a function declaration is inserted during
/// parsing).
pub ghost struct SOut {
    pub r: Result<StmtSpec, CalcErrorSpec>,
    pub pos: int,
    pub st: Map<Seq<char>, StmtSpec>,
}

/// What parsing a whole input yields.
pub ghost struct POut {
    pub r: Result<Seq<StmtSpec>, CalcErrorSpec>,
    pub pos: int,
    pub st: Map<Seq<char>, StmtSpec>,
}

/// Whether the cursor stands at the end of input: past the sequence, or on
/// the end marker.
pub open spec fn spec_is_at_end(t: Seq<TokenSpec>, pos: int) -> bool {
    pos >= t.len() || t[pos].kind is EOF
}

/// The token under the cursor; past the end it is the end marker.
pub open spec fn spec_peek(t: Seq<TokenSpec>, pos: int) -> TokenSpec {
    if 0 <= pos < t.len() {
        t[pos]
    } else {
        spec_eof_token()
    }
}

/// Whether the token under the cursor has kind `k` (never true at the end of
/// input).
pub open spec fn spec_match(t: Seq<TokenSpec>, pos: int, k: TokenKind) -> bool {
    !spec_is_at_end(t, pos) && spec_peek(t, pos).kind == k
}

/// The cursor after consuming one token; it never passes the end of the
/// sequence.
pub open spec fn spec_advance_pos(t: Seq<TokenSpec>, pos: int) -> int {
    if pos < t.len() {
        pos + 1
    } else {
        pos
    }
}

/// The left-associative implicit-multiplication chain an unknown
/// multi-character identifier is split into: `xy` stands for `x*y`.
pub open spec fn spec_char_mult_chain(s: Seq<char>) -> ExprSpec
    decreases s.len(),
{
    if s.len() <= 1 {
        ExprSpec::Var(s)
    } else {
        ExprSpec::Binary(
            Box::new(spec_char_mult_chain(s.drop_last())),
            TokenKind::Star,
            Box::new(ExprSpec::Var(seq![s.last()])),
        )
    }
}

/// The parameter names recovered from the argument list of a speculatively
/// parsed call: every bare variable reference, in order; anything else is
/// silently dropped.
pub open spec fn spec_params(args: Seq<ExprSpec>) -> Seq<Seq<char>>
    decreases args.len(),
{
    if args.len() == 0 {
        Seq::empty()
    } else {
        let rest = spec_params(args.drop_last());
        match args.last() {
            ExprSpec::Var(n) => rest.push(n),
            _ => rest,
        }
    }
}

/// Mirror of [`parse_expr`]: the whole expression grammar, loosest binding
/// first.
#[verifier::opaque]
pub open spec fn spec_parse_expr(t: Seq<TokenSpec>, pos: int, st: Map<Seq<char>, StmtSpec>) -> EOut
    decreases t.len() - pos, 10int,
{
    spec_parse_sum(t, pos, st)
}

/// Mirror of [`parse_sum`]: `+` and `-`, left-associative.
#[verifier::opaque]
pub open spec fn spec_parse_sum(t: Seq<TokenSpec>, pos: int, st: Map<Seq<char>, StmtSpec>) -> EOut
    decreases t.len() - pos, 9int,
{
    let f = spec_parse_factor(t, pos, st);
    match f.r {
        Err(_) => f,
        Ok(left) => if pos <= f.pos <= t.len() {
            spec_parse_sum_loop(t, f.pos, st, left)
        } else {
            EOut { r: Err(CalcErrorSpec::Unknown), pos: f.pos }
        },
    }
}

/// The iteration of [`spec_parse_sum`]: folds further `+`/`-` operands onto
/// `left`.
#[verifier::opaque]
pub open spec fn spec_parse_sum_loop(
    t: Seq<TokenSpec>,
    pos: int,
    st: Map<Seq<char>, StmtSpec>,
    left: ExprSpec,
) -> EOut
    decreases t.len() - pos, 8int,
{
    if spec_match(t, pos, TokenKind::Plus) || spec_match(t, pos, TokenKind::Minus) {
        let op = spec_peek(t, pos).kind;
        let f = spec_parse_factor(t, pos + 1, st);
        match f.r {
            Err(_) => f,
            Ok(right) => {
                let bin = ExprSpec::Binary(Box::new(left), op, Box::new(right));
                if pos < f.pos <= t.len() {
                    spec_parse_sum_loop(t, f.pos, st, bin)
                } else {
                    EOut { r: Err(CalcErrorSpec::Unknown), pos: f.pos }
                }
            },
        }
    } else {
        EOut { r: Ok(left), pos }
    }
}

/// Mirror of [`parse_factor`]: `*`, `/`, and implicit multiplication before
/// an identifier or literal, left-associative.
#[verifier::opaque]
pub open spec fn spec_parse_factor(t: Seq<TokenSpec>, pos: int, st: Map<Seq<char>, StmtSpec>) -> EOut
    decreases t.len() - pos, 7int,
{
    let u = spec_parse_unary(t, pos, st);
    match u.r {
        Err(_) => u,
        Ok(left) => if pos <= u.pos <= t.len() {
            spec_parse_factor_loop(t, u.pos, st, left)
        } else {
            EOut { r: Err(CalcErrorSpec::Unknown), pos: u.pos }
        },
    }
}

/// The iteration of [`spec_parse_factor`]: an explicit `*` or `/` consumes
/// its token; a juxtaposed identifier or literal stands for `*` and consumes
/// nothing here.
#[verifier::opaque]
pub open spec fn spec_parse_factor_loop(
    t: Seq<TokenSpec>,
    pos: int,
    st: Map<Seq<char>, StmtSpec>,
    left: ExprSpec,
) -> EOut
    decreases t.len() - pos, 6int,
{
    if spec_match(t, pos, TokenKind::Star) || spec_match(t, pos, TokenKind::Slash) || spec_match(
        t,
        pos,
        TokenKind::Identifier,
    ) || spec_match(t, pos, TokenKind::Literal) {
        let k = spec_peek(t, pos).kind;
        let implicit = k is Identifier || k is Literal;
        let op = if implicit {
            TokenKind::Star
        } else {
            k
        };
        let next = if implicit {
            pos
        } else {
            pos + 1
        };
        let u = spec_parse_unary(t, next, st);
        match u.r {
            Err(_) => u,
            Ok(right) => {
                let bin = ExprSpec::Binary(Box::new(left), op, Box::new(right));
                if pos < u.pos <= t.len() {
                    spec_parse_factor_loop(t, u.pos, st, bin)
                } else {
                    EOut { r: Err(CalcErrorSpec::Unknown), pos: u.pos }
                }
            },
        }
    } else {
        EOut { r: Ok(left), pos }
    }
}

/// Mirror of [`parse_unary`]: prefix minus, binding more loosely than the
/// exponent, so `-2^2` stands for `-(2^2)`.
#[verifier::opaque]
pub open spec fn spec_parse_unary(t: Seq<TokenSpec>, pos: int, st: Map<Seq<char>, StmtSpec>) -> EOut
    decreases t.len() - pos, 5int,
{
    if spec_match(t, pos, TokenKind::Minus) {
        let u = spec_parse_unary(t, pos + 1, st);
        match u.r {
            Err(_) => u,
            Ok(e) => EOut { r: Ok(ExprSpec::Unary(TokenKind::Minus, Box::new(e))), pos: u.pos },
        }
    } else {
        spec_parse_exponent(t, pos, st)
    }
}

/// Mirror of [`parse_exponent`]: `^`, right-associative.
#[verifier::opaque]
pub open spec fn spec_parse_exponent(
    t: Seq<TokenSpec>,
    pos: int,
    st: Map<Seq<char>, StmtSpec>,
) -> EOut
    decreases t.len() - pos, 4int,
{
    let f = spec_parse_factorial(t, pos, st);
    match f.r {
        Err(_) => f,
        Ok(left) => if spec_match(t, f.pos, TokenKind::Power) {
            if pos <= f.pos {
                let r = spec_parse_exponent(t, f.pos + 1, st);
                match r.r {
                    Err(_) => r,
                    Ok(right) => EOut {
                        r: Ok(
                            ExprSpec::Binary(Box::new(left), TokenKind::Power, Box::new(right)),
                        ),
                        pos: r.pos,
                    },
                }
            } else {
                EOut { r: Err(CalcErrorSpec::Unknown), pos: f.pos }
            }
        } else {
            f
        },
    }
}

/// Mirror of [`parse_factorial`]: postfix `!`, the tightest operator.
#[verifier::opaque]
pub open spec fn spec_parse_factorial(
    t: Seq<TokenSpec>,
    pos: int,
    st: Map<Seq<char>, StmtSpec>,
) -> EOut
    decreases t.len() - pos, 3int,
{
    let p = spec_parse_primary(t, pos, st);
    match p.r {
        Err(_) => p,
        Ok(e) => if spec_match(t, p.pos, TokenKind::Exclamation) {
            EOut {
                r: Ok(ExprSpec::Unary(TokenKind::Exclamation, Box::new(e))),
                pos: p.pos + 1,
            }
        } else {
            p
        },
    }
}

/// Mirror of [`parse_primary`]: group, group-function shorthand, identifier,
/// or bare literal, optionally followed by an angle-unit suffix.
#[verifier::opaque]
pub open spec fn spec_parse_primary(
    t: Seq<TokenSpec>,
    pos: int,
    st: Map<Seq<char>, StmtSpec>,
) -> EOut
    decreases t.len() - pos, 2int,
{
    let k = spec_peek(t, pos).kind;
    let inner = if k is OpenParenthesis {
        spec_parse_group(t, pos, st)
    } else if k is Pipe || k is OpenCeil || k is OpenFloor {
        spec_parse_group_fn(t, pos, st)
    } else if k is Identifier {
        spec_parse_identifier(t, pos, st)
    } else {
        EOut {
            r: Ok(ExprSpec::Literal(spec_peek(t, pos).value)),
            pos: spec_advance_pos(t, pos),
        }
    };
    match inner.r {
        Err(_) => inner,
        Ok(e) => if !spec_is_at_end(t, inner.pos) && spec_peek(t, inner.pos).kind.spec_is_unit() {
            EOut {
                r: Ok(ExprSpec::Unit(Box::new(e), spec_peek(t, inner.pos).kind)),
                pos: spec_advance_pos(t, inner.pos),
            }
        } else {
            inner
        },
    }
}

/// Mirror of [`parse_group`]: a parenthesized sub-expression, kept as a
/// distinct node.
#[verifier::opaque]
pub open spec fn spec_parse_group(t: Seq<TokenSpec>, pos: int, st: Map<Seq<char>, StmtSpec>) -> EOut
    decreases t.len() - pos, 1int,
{
    if pos < t.len() {
        let e = spec_parse_expr(t, pos + 1, st);
        match e.r {
            Err(_) => e,
            Ok(inner) => if spec_match(t, e.pos, TokenKind::ClosedParenthesis) {
                EOut { r: Ok(ExprSpec::Group(Box::new(inner))), pos: e.pos + 1 }
            } else {
                EOut {
                    r: Err(CalcErrorSpec::UnexpectedToken(TokenKind::ClosedParenthesis)),
                    pos: e.pos,
                }
            },
        }
    } else {
        EOut { r: Err(CalcErrorSpec::Unknown), pos }
    }
}

/// Mirror of [`parse_group_fn`]: `|x|`, `⌈x⌉` and `⌊x⌋` stand for calls of
/// `abs`, `ceil` and `floor`; the closing delimiter is consumed unchecked.
#[verifier::opaque]
pub open spec fn spec_parse_group_fn(
    t: Seq<TokenSpec>,
    pos: int,
    st: Map<Seq<char>, StmtSpec>,
) -> EOut
    decreases t.len() - pos, 1int,
{
    if pos < t.len() {
        let k = t[pos].kind;
        let name: Option<Seq<char>> = if k is Pipe {
            Some("abs"@)
        } else if k is OpenCeil {
            Some("ceil"@)
        } else if k is OpenFloor {
            Some("floor"@)
        } else {
            None
        };
        match name {
            Some(n) => {
                let e = spec_parse_expr(t, pos + 1, st);
                match e.r {
                    Err(_) => e,
                    Ok(inner) => EOut {
                        r: Ok(ExprSpec::FnCall(n, seq![inner])),
                        pos: spec_advance_pos(t, e.pos),
                    },
                }
            },
            None => EOut { r: Err(CalcErrorSpec::Unknown), pos },
        }
    } else {
        EOut { r: Err(CalcErrorSpec::Unknown), pos }
    }
}

/// Mirror of [`parse_identifier`]: resolution against the symbol environment,
/// in priority order — known function followed by a literal (`sqrt64`), a
/// call with a parenthesized argument list, a known variable, and otherwise
/// the character-split implicit-multiplication chain.
#[verifier::opaque]
pub open spec fn spec_parse_identifier(
    t: Seq<TokenSpec>,
    pos: int,
    st: Map<Seq<char>, StmtSpec>,
) -> EOut
    decreases t.len() - pos, 1int,
{
    if pos < t.len() && t[pos].kind is Identifier {
        let idv = t[pos].value;
        let p1 = pos + 1;
        if spec_match(t, p1, TokenKind::Literal) && spec_contains_fn(st, idv) {
            EOut {
                r: Ok(ExprSpec::FnCall(idv, seq![ExprSpec::Literal(spec_peek(t, p1).value)])),
                pos: p1 + 1,
            }
        } else if spec_match(t, p1, TokenKind::OpenParenthesis) {
            let a = spec_parse_expr(t, p1 + 1, st);
            match a.r {
                Err(err) => EOut { r: Err(err), pos: a.pos },
                Ok(first) => if pos <= a.pos <= t.len() {
                    let args = spec_parse_args_loop(t, a.pos, st, seq![first]);
                    match args.r {
                        Err(err) => EOut { r: Err(err), pos: args.pos },
                        Ok(list) => EOut { r: Ok(ExprSpec::FnCall(idv, list)), pos: args.pos },
                    }
                } else {
                    EOut { r: Err(CalcErrorSpec::Unknown), pos: a.pos }
                },
            }
        } else if spec_contains_var(st, idv) {
            EOut { r: Ok(ExprSpec::Var(idv)), pos: p1 }
        } else if idv.len() >= 1 {
            EOut { r: Ok(spec_char_mult_chain(idv)), pos: p1 }
        } else {
            EOut { r: Err(CalcErrorSpec::Unknown), pos: p1 }
        }
    } else {
        EOut { r: Err(CalcErrorSpec::Unknown), pos }
    }
}

/// The iteration of the argument list of [`spec_parse_identifier`]: further
/// comma-separated arguments, then the closing parenthesis.
#[verifier::opaque]
pub open spec fn spec_parse_args_loop(
    t: Seq<TokenSpec>,
    pos: int,
    st: Map<Seq<char>, StmtSpec>,
    args: Seq<ExprSpec>,
) -> AOut
    decreases t.len() - pos, 0int,
{
    if spec_match(t, pos, TokenKind::Comma) {
        let e = spec_parse_expr(t, pos + 1, st);
        match e.r {
            Err(err) => AOut { r: Err(err), pos: e.pos },
            Ok(x) => if pos < e.pos <= t.len() {
                spec_parse_args_loop(t, e.pos, st, args.push(x))
            } else {
                AOut { r: Err(CalcErrorSpec::Unknown), pos: e.pos }
            },
        }
    } else if spec_match(t, pos, TokenKind::ClosedParenthesis) {
        AOut { r: Ok(args), pos: pos + 1 }
    } else {
        AOut {
            r: Err(CalcErrorSpec::UnexpectedToken(TokenKind::ClosedParenthesis)),
            pos,
        }
    }
}

/// Mirror of [`parse_var_decl_stmt`]: `name = expression`.
#[verifier::opaque]
pub open spec fn spec_parse_var_decl(
    t: Seq<TokenSpec>,
    pos: int,
    st: Map<Seq<char>, StmtSpec>,
) -> SOut
    decreases t.len() - pos, 11int,
{
    let idv = spec_peek(t, pos).value;
    let p2 = spec_advance_pos(t, spec_advance_pos(t, pos));
    let e = spec_parse_expr(t, p2, st);
    match e.r {
        Err(err) => SOut { r: Err(err), pos: e.pos, st },
        Ok(x) => SOut { r: Ok(StmtSpec::VarDecl(idv, x)), pos: e.pos, st },
    }
}

/// Mirror of wrapping a plain expression as a statement.
#[verifier::opaque]
pub open spec fn spec_parse_expr_stmt(
    t: Seq<TokenSpec>,
    pos: int,
    st: Map<Seq<char>, StmtSpec>,
) -> SOut
    decreases t.len() - pos, 11int,
{
    let e = spec_parse_expr(t, pos, st);
    match e.r {
        Err(err) => SOut { r: Err(err), pos: e.pos, st },
        Ok(x) => SOut { r: Ok(StmtSpec::Expr(x)), pos: e.pos, st },
    }
}

/// Mirror of [`parse_identifier_stmt`]: a speculative "function call" parse;
/// if an `=` follows it becomes a function declaration (bare-variable
/// arguments become the parameters, the declaration is inserted into the
/// symbol environment), otherwise the cursor is rewound and the statement is
/// re-parsed as a plain expression.
#[verifier::opaque]
pub open spec fn spec_parse_identifier_stmt(
    t: Seq<TokenSpec>,
    pos: int,
    st: Map<Seq<char>, StmtSpec>,
) -> SOut
    decreases t.len() - pos, 12int,
{
    let p = spec_parse_primary(t, pos, st);
    match p.r {
        Err(err) => SOut { r: Err(err), pos: p.pos, st },
        Ok(prim) => {
            if spec_peek(t, p.pos).kind is Equals {
                if pos <= p.pos {
                    let e = spec_parse_expr(t, p.pos + 1, st);
                    match e.r {
                        Err(err) => SOut { r: Err(err), pos: e.pos, st },
                        Ok(body) => match prim {
                            ExprSpec::FnCall(name, args) => {
                                let decl = StmtSpec::FnDecl(name, spec_params(args), body);
                                SOut {
                                    r: Ok(decl),
                                    pos: e.pos,
                                    st: st.insert(name + "()"@, decl),
                                }
                            },
                            _ => SOut { r: Err(CalcErrorSpec::Unknown), pos: e.pos, st },
                        },
                    }
                } else {
                    SOut { r: Err(CalcErrorSpec::Unknown), pos: p.pos, st }
                }
            } else {
                spec_parse_expr_stmt(t, pos, st)
            }
        },
    }
}

/// Mirror of [`parse_stmt`]: statement-level dispatch on the first two
/// tokens.
#[verifier::opaque]
pub open spec fn spec_parse_stmt(t: Seq<TokenSpec>, pos: int, st: Map<Seq<char>, StmtSpec>) -> SOut
    decreases t.len() - pos, 13int,
{
    if spec_match(t, pos, TokenKind::Identifier) {
        let k2 = spec_peek(t, pos + 1).kind;
        if k2 is Equals {
            spec_parse_var_decl(t, pos, st)
        } else if k2 is OpenParenthesis {
            spec_parse_identifier_stmt(t, pos, st)
        } else {
            spec_parse_expr_stmt(t, pos, st)
        }
    } else {
        spec_parse_expr_stmt(t, pos, st)
    }
}

/// Mirror of [`parse`]'s loop: statements, in order, until the end of input;
/// later statements see the symbol environment left by earlier ones.
#[verifier::opaque]
pub open spec fn spec_parse_stmts(t: Seq<TokenSpec>, pos: int, st: Map<Seq<char>, StmtSpec>) -> POut
    decreases t.len() - pos, 14int,
{
    if spec_is_at_end(t, pos) {
        POut { r: Ok(Seq::empty()), pos, st }
    } else {
        let s = spec_parse_stmt(t, pos, st);
        match s.r {
            Err(err) => POut { r: Err(err), pos: s.pos, st: s.st },
            Ok(stmt) => if pos < s.pos <= t.len() {
                let rest = spec_parse_stmts(t, s.pos, s.st);
                match rest.r {
                    Err(err) => POut { r: Err(err), pos: rest.pos, st: rest.st },
                    Ok(more) => POut { r: Ok(seq![stmt] + more), pos: rest.pos, st: rest.st },
                }
            } else {
                POut { r: Err(CalcErrorSpec::Unknown), pos: s.pos, st: s.st }
            },
        }
    }
}

/// Whether the session's cursor stands at the end of input.
pub fn is_at_end(context: &Context) -> (r: bool)
    requires
        context.wf(),
    ensures
        r == spec_is_at_end(context.tokens.deep_view(), context.pos as int),
{
    context.pos >= context.tokens.len() || matches!(context.tokens[context.pos].kind, TokenKind::EOF)
}

/// The token under the cursor, copied out; past the end it is the end
/// marker.
pub fn peek(context: &Context) -> (r: Token)
    requires
        context.wf(),
    ensures
        r@ == spec_peek(context.tokens.deep_view(), context.pos as int),
{
    if context.pos < context.tokens.len() {
        let tok = &context.tokens[context.pos];
        Token { kind: tok.kind, value: tok.value.clone() }
    } else {
        Token { kind: TokenKind::EOF, value: String::new() }
    }
}

/// The token after the one under the cursor.
pub fn peek_next(context: &Context) -> (r: Token)
    requires
        context.wf(),
    ensures
        r@ == spec_peek(context.tokens.deep_view(), context.pos + 1),
{
    if context.pos < context.tokens.len() && context.tokens.len() - context.pos >= 2 {
        let tok = &context.tokens[context.pos + 1];
        Token { kind: tok.kind, value: tok.value.clone() }
    } else {
        Token { kind: TokenKind::EOF, value: String::new() }
    }
}

/// The token just consumed.
pub fn previous(context: &Context) -> (r: Token)
    requires
        context.wf(),
        context.pos >= 1,
    ensures
        r@ == context.tokens.deep_view()[context.pos - 1],
{
    let tok = &context.tokens[context.pos - 1];
    Token { kind: tok.kind, value: tok.value.clone() }
}

/// Whether the token under the cursor has kind `kind`.
pub fn match_token(context: &Context, kind: TokenKind) -> (r: bool)
    requires
        context.wf(),
    ensures
        r == spec_match(context.tokens.deep_view(), context.pos as int, kind),
{
    if is_at_end(context) {
        return false;
    }
    peek(context).kind == kind
}

/// Consumes one token and hands it out; at the end of input the cursor
/// stands still and the end marker is handed out.
pub fn advance(context: &mut Context) -> (r: Token)
    requires
        old(context).wf(),
    ensures
        final(context).wf(),
        final(context).tokens == old(context).tokens,
        final(context).symbol_table == old(context).symbol_table,
        final(context).angle_unit == old(context).angle_unit,
        final(context).pos as int == spec_advance_pos(
            old(context).tokens.deep_view(),
            old(context).pos as int,
        ),
        r@ == spec_peek(old(context).tokens.deep_view(), old(context).pos as int),
{
    if context.pos < context.tokens.len() {
        context.pos = context.pos + 1;
        previous(context)
    } else {
        Token { kind: TokenKind::EOF, value: String::new() }
    }
}

/// Consumes the token under the cursor if it has kind `kind`; otherwise
/// reports the kind that was required, leaving the cursor in place.
pub fn consume(context: &mut Context, kind: TokenKind) -> (r: Result<Token, CalcError>)
    requires
        old(context).wf(),
    ensures
        final(context).wf(),
        final(context).tokens == old(context).tokens,
        final(context).symbol_table == old(context).symbol_table,
        final(context).angle_unit == old(context).angle_unit,
        ({
            let t = old(context).tokens.deep_view();
            let pos = old(context).pos as int;
            if spec_match(t, pos, kind) {
                &&& final(context).pos as int == pos + 1
                &&& r matches Ok(tok) && tok@ == t[pos]
            } else {
                &&& final(context).pos == old(context).pos
                &&& r matches Err(e) && e@ == CalcErrorSpec::UnexpectedToken(kind)
            }
        }),
{
    if match_token(context, kind) {
        return Ok(advance(context));
    }
    Err(CalcError::UnexpectedToken(kind))
}

/// The implicit-multiplication chain of single-character variables an
/// unknown identifier is split into.
#[verifier::rlimit(100)]
fn char_mult_chain(value: &String) -> (r: Expr)
    requires
        value@.len() >= 1,
    ensures
        r.deep_view() == spec_char_mult_chain(value@),
{
    let s = value.as_str();
    let n = s.unicode_len();
    let mut left = Expr::Var(s.substring_char(0, 1).to_owned());
    proof {
        assert(value@.take(1) =~= value@.subrange(0, 1));
    }
    let mut i: usize = 1;
    while i < n
        invariant
            1 <= i <= n,
            n == value@.len(),
            s@ == value@,
            left.deep_view() == spec_char_mult_chain(value@.take(i as int)),
        decreases n - i,
    {
        let ghost old_dv = left.deep_view();
        let c = s.substring_char(i, i + 1).to_owned();
        let ghost cv = c@;
        let var_expr = Expr::Var(c);
        proof {
            assert(var_expr.deep_view() == ExprSpec::Var(cv));
            assert(seq![value@[i as int]] =~= value@.subrange(i as int, i + 1));
        }
        left = Expr::Binary(Box::new(left), TokenKind::Star, Box::new(var_expr));
        proof {
            assert(left.deep_view() == ExprSpec::Binary(
                Box::new(old_dv),
                TokenKind::Star,
                Box::new(ExprSpec::Var(cv)),
            ));
            assert(value@.take(i + 1).drop_last() =~= value@.take(i as int));
            assert(value@.take(i + 1).last() == value@[i as int]);
            assert(spec_char_mult_chain(value@.take(i + 1)) == ExprSpec::Binary(
                Box::new(spec_char_mult_chain(value@.take(i as int))),
                TokenKind::Star,
                Box::new(ExprSpec::Var(seq![value@[i as int]])),
            ));
        }
        i = i + 1;
    }
    proof {
        assert(value@.take(n as int) =~= value@);
    }
    left
}

/// Parses a whole expression (the loosest level of the grammar).
#[verifier::spinoff_prover]
#[verifier::rlimit(100)]
pub fn parse_expr(context: &mut Context) -> (r: Result<Expr, CalcError>)
    requires
        old(context).wf(),
    ensures
        final(context).wf(),
        final(context).tokens == old(context).tokens,
        final(context).symbol_table == old(context).symbol_table,
        final(context).angle_unit == old(context).angle_unit,
        old(context).pos <= final(context).pos,
        old(context).pos < old(context).tokens@.len() ==> old(context).pos < final(context).pos,
        ({
            let o = spec_parse_expr(
                old(context).tokens.deep_view(),
                old(context).pos as int,
                old(context).symbol_table@,
            );
            o.pos == final(context).pos as int && o.r == expr_res_view(r)
        }),
    decreases old(context).tokens@.len() - old(context).pos, 10int,
{
    let ghost t = old(context).tokens.deep_view();
    let ghost pos0 = old(context).pos as int;
    let ghost st = old(context).symbol_table@;
    let r = parse_sum(context);
    proof {
        reveal_with_fuel(spec_parse_expr, 1);
        reveal_with_fuel(spec_parse_sum, 1);
        assert(spec_parse_expr(t, pos0, st) == spec_parse_sum(t, pos0, st));
    }
    r
}

/// Parses a sum: `+` and `-`, left-associative.
#[verifier::rlimit(100)]
#[verifier::spinoff_prover]
pub fn parse_sum(context: &mut Context) -> (r: Result<Expr, CalcError>)
    requires
        old(context).wf(),
    ensures
        final(context).wf(),
        final(context).tokens == old(context).tokens,
        final(context).symbol_table == old(context).symbol_table,
        final(context).angle_unit == old(context).angle_unit,
        old(context).pos <= final(context).pos,
        old(context).pos < old(context).tokens@.len() ==> old(context).pos < final(context).pos,
        ({
            let o = spec_parse_sum(
                old(context).tokens.deep_view(),
                old(context).pos as int,
                old(context).symbol_table@,
            );
            o.pos == final(context).pos as int && o.r == expr_res_view(r)
        }),
    decreases old(context).tokens@.len() - old(context).pos, 9int,
{
    reveal_with_fuel(spec_parse_sum, 1);
    reveal_with_fuel(spec_parse_sum_loop, 1);
    let ghost t = old(context).tokens.deep_view();
    let ghost pos0 = old(context).pos as int;
    let ghost st = old(context).symbol_table@;
    let mut left = match parse_factor(context) {
        Ok(e) => e,
        Err(e) => {
            return Err(e);
        },
    };
    while match_token(context, TokenKind::Plus) || match_token(context, TokenKind::Minus)
        invariant
            context.wf(),
            context.tokens == old(context).tokens,
            context.symbol_table == old(context).symbol_table,
            context.angle_unit == old(context).angle_unit,
            t == context.tokens.deep_view(),
            st == context.symbol_table@,
            t == old(context).tokens.deep_view(),
            st == old(context).symbol_table@,
            pos0 == old(context).pos as int,
            pos0 <= context.pos as int,
            pos0 < t.len() ==> pos0 < context.pos as int,
            spec_parse_sum(t, pos0, st) == spec_parse_sum_loop(
                t,
                context.pos as int,
                st,
                left.deep_view(),
            ),
        decreases t.len() - context.pos,
    {
        let op = peek(context).kind;
        advance(context);
        proof {
            assert(old(context).pos < context.pos);
            assert(context.pos <= context.tokens@.len());
        }
        reveal_with_fuel(spec_parse_sum, 1);
        reveal_with_fuel(spec_parse_sum_loop, 1);
        let right = match parse_factor(context) {
            Ok(e) => e,
            Err(e) => {
                return Err(e);
            },
        };
        left = Expr::Binary(Box::new(left), op, Box::new(right));
    }
    Ok(left)
}

/// Parses a factor: `*`, `/`, and implicit multiplication before a
/// juxtaposed identifier or literal, left-associative.
#[verifier::rlimit(100)]
#[verifier::spinoff_prover]
pub fn parse_factor(context: &mut Context) -> (r: Result<Expr, CalcError>)
    requires
        old(context).wf(),
    ensures
        final(context).wf(),
        final(context).tokens == old(context).tokens,
        final(context).symbol_table == old(context).symbol_table,
        final(context).angle_unit == old(context).angle_unit,
        old(context).pos <= final(context).pos,
        old(context).pos < old(context).tokens@.len() ==> old(context).pos < final(context).pos,
        ({
            let o = spec_parse_factor(
                old(context).tokens.deep_view(),
                old(context).pos as int,
                old(context).symbol_table@,
            );
            o.pos == final(context).pos as int && o.r == expr_res_view(r)
        }),
    decreases old(context).tokens@.len() - old(context).pos, 7int,
{
    reveal_with_fuel(spec_parse_factor, 1);
    reveal_with_fuel(spec_parse_factor_loop, 1);
    let ghost t = old(context).tokens.deep_view();
    let ghost pos0 = old(context).pos as int;
    let ghost st = old(context).symbol_table@;
    let mut left = match parse_unary(context) {
        Ok(e) => e,
        Err(e) => {
            return Err(e);
        },
    };
    while match_token(context, TokenKind::Star) || match_token(context, TokenKind::Slash)
        || match_token(context, TokenKind::Identifier) || match_token(context, TokenKind::Literal)
        invariant
            context.wf(),
            context.tokens == old(context).tokens,
            context.symbol_table == old(context).symbol_table,
            context.angle_unit == old(context).angle_unit,
            t == context.tokens.deep_view(),
            st == context.symbol_table@,
            t == old(context).tokens.deep_view(),
            st == old(context).symbol_table@,
            pos0 == old(context).pos as int,
            pos0 <= context.pos as int,
            pos0 < t.len() ==> pos0 < context.pos as int,
            spec_parse_factor(t, pos0, st) == spec_parse_factor_loop(
                t,
                context.pos as int,
                st,
                left.deep_view(),
            ),
        decreases t.len() - context.pos,
    {
        reveal_with_fuel(spec_parse_factor, 1);
        reveal_with_fuel(spec_parse_factor_loop, 1);
        let op = match peek(context).kind {
            TokenKind::Identifier | TokenKind::Literal => TokenKind::Star,
            _ => advance(context).kind,
        };
        proof {
            assert(old(context).pos < context.pos || (old(context).pos == context.pos
                && old(context).pos < old(context).tokens@.len()));
            assert(context.pos <= context.tokens@.len());
        }
        let right = match parse_unary(context) {
            Ok(e) => e,
            Err(e) => {
                return Err(e);
            },
        };
        left = Expr::Binary(Box::new(left), op, Box::new(right));
    }
    Ok(left)
}

/// Parses a unary prefix minus, or passes through to the exponent level.
#[verifier::spinoff_prover]
#[verifier::rlimit(100)]
pub fn parse_unary(context: &mut Context) -> (r: Result<Expr, CalcError>)
    requires
        old(context).wf(),
    ensures
        final(context).wf(),
        final(context).tokens == old(context).tokens,
        final(context).symbol_table == old(context).symbol_table,
        final(context).angle_unit == old(context).angle_unit,
        old(context).pos <= final(context).pos,
        old(context).pos < old(context).tokens@.len() ==> old(context).pos < final(context).pos,
        ({
            let o = spec_parse_unary(
                old(context).tokens.deep_view(),
                old(context).pos as int,
                old(context).symbol_table@,
            );
            o.pos == final(context).pos as int && o.r == expr_res_view(r)
        }),
    decreases old(context).tokens@.len() - old(context).pos, 5int,
{
    reveal_with_fuel(spec_parse_unary, 1);
    if match_token(context, TokenKind::Minus) {
        let op = advance(context).kind;
        let inner = match parse_unary(context) {
            Ok(e) => e,
            Err(e) => {
                return Err(e);
            },
        };
        return Ok(Expr::Unary(op, Box::new(inner)));
    }
    parse_exponent(context)
}

/// Parses an exponent: `^`, right-associative.
#[verifier::spinoff_prover]
#[verifier::rlimit(100)]
pub fn parse_exponent(context: &mut Context) -> (r: Result<Expr, CalcError>)
    requires
        old(context).wf(),
    ensures
        final(context).wf(),
        final(context).tokens == old(context).tokens,
        final(context).symbol_table == old(context).symbol_table,
        final(context).angle_unit == old(context).angle_unit,
        old(context).pos <= final(context).pos,
        old(context).pos < old(context).tokens@.len() ==> old(context).pos < final(context).pos,
        ({
            let o = spec_parse_exponent(
                old(context).tokens.deep_view(),
                old(context).pos as int,
                old(context).symbol_table@,
            );
            o.pos == final(context).pos as int && o.r == expr_res_view(r)
        }),
    decreases old(context).tokens@.len() - old(context).pos, 4int,
{
    reveal_with_fuel(spec_parse_exponent, 1);
    let left = match parse_factorial(context) {
        Ok(e) => e,
        Err(e) => {
            return Err(e);
        },
    };
    if match_token(context, TokenKind::Power) {
        let op = advance(context).kind;
        let right = match parse_exponent(context) {
            Ok(e) => e,
            Err(e) => {
                return Err(e);
            },
        };
        return Ok(Expr::Binary(Box::new(left), op, Box::new(right)));
    }
    Ok(left)
}

/// Parses a postfix factorial, or passes the primary through.
#[verifier::spinoff_prover]
#[verifier::rlimit(100)]
pub fn parse_factorial(context: &mut Context) -> (r: Result<Expr, CalcError>)
    requires
        old(context).wf(),
    ensures
        final(context).wf(),
        final(context).tokens == old(context).tokens,
        final(context).symbol_table == old(context).symbol_table,
        final(context).angle_unit == old(context).angle_unit,
        old(context).pos <= final(context).pos,
        old(context).pos < old(context).tokens@.len() ==> old(context).pos < final(context).pos,
        ({
            let o = spec_parse_factorial(
                old(context).tokens.deep_view(),
                old(context).pos as int,
                old(context).symbol_table@,
            );
            o.pos == final(context).pos as int && o.r == expr_res_view(r)
        }),
    decreases old(context).tokens@.len() - old(context).pos, 3int,
{
    reveal_with_fuel(spec_parse_factorial, 1);
    let expr = match parse_primary(context) {
        Ok(e) => e,
        Err(e) => {
            return Err(e);
        },
    };
    if match_token(context, TokenKind::Exclamation) {
        advance(context);
        return Ok(Expr::Unary(TokenKind::Exclamation, Box::new(expr)));
    }
    Ok(expr)
}

/// Parses a primary: a group, a group-function shorthand, an identifier, or
/// a bare literal; an angle-unit suffix may follow any of them.
#[verifier::rlimit(100)]
#[verifier::spinoff_prover]
pub fn parse_primary(context: &mut Context) -> (r: Result<Expr, CalcError>)
    requires
        old(context).wf(),
    ensures
        final(context).wf(),
        final(context).tokens == old(context).tokens,
        final(context).symbol_table == old(context).symbol_table,
        final(context).angle_unit == old(context).angle_unit,
        old(context).pos <= final(context).pos,
        old(context).pos < old(context).tokens@.len() ==> old(context).pos < final(context).pos,
        ({
            let o = spec_parse_primary(
                old(context).tokens.deep_view(),
                old(context).pos as int,
                old(context).symbol_table@,
            );
            o.pos == final(context).pos as int && o.r == expr_res_view(r)
        }),
    decreases old(context).tokens@.len() - old(context).pos, 2int,
{
    reveal_with_fuel(spec_parse_primary, 1);
    let k = peek(context).kind;
    let expr = match k {
        TokenKind::OpenParenthesis => match parse_group(context) {
            Ok(e) => e,
            Err(e) => {
                return Err(e);
            },
        },
        TokenKind::Pipe | TokenKind::OpenCeil | TokenKind::OpenFloor => {
            match parse_group_fn(context) {
                Ok(e) => e,
                Err(e) => {
                    return Err(e);
                },
            }
        },
        TokenKind::Identifier => match parse_identifier(context) {
            Ok(e) => e,
            Err(e) => {
                return Err(e);
            },
        },
        _ => Expr::Literal(advance(context).value),
    };
    if !is_at_end(context) && peek(context).kind.is_unit() {
        let unit = advance(context).kind;
        let ghost edv = expr.deep_view();
        let wrapped = Expr::Unit(Box::new(expr), unit);
        proof {
            assert(wrapped.deep_view() == ExprSpec::Unit(Box::new(edv), unit));
        }
        return Ok(wrapped);
    }
    Ok(expr)
}

/// Parses a parenthesized group.
#[verifier::spinoff_prover]
#[verifier::rlimit(100)]
pub fn parse_group(context: &mut Context) -> (r: Result<Expr, CalcError>)
    requires
        old(context).wf(),
    ensures
        final(context).wf(),
        final(context).tokens == old(context).tokens,
        final(context).symbol_table == old(context).symbol_table,
        final(context).angle_unit == old(context).angle_unit,
        old(context).pos <= final(context).pos,
        old(context).pos < old(context).tokens@.len() ==> old(context).pos < final(context).pos,
        ({
            let o = spec_parse_group(
                old(context).tokens.deep_view(),
                old(context).pos as int,
                old(context).symbol_table@,
            );
            o.pos == final(context).pos as int && o.r == expr_res_view(r)
        }),
    decreases old(context).tokens@.len() - old(context).pos, 1int,
{
    reveal_with_fuel(spec_parse_group, 1);
    reveal_with_fuel(spec_parse_expr, 1);
    reveal_with_fuel(spec_parse_sum, 1);
    if context.pos >= context.tokens.len() {
        return Err(CalcError::Unknown);
    }
    advance(context);
    let inner = match parse_expr(context) {
        Ok(e) => e,
        Err(e) => {
            return Err(e);
        },
    };
    let group_expr = Expr::Group(Box::new(inner));
    match consume(context, TokenKind::ClosedParenthesis) {
        Ok(_) => Ok(group_expr),
        Err(e) => Err(e),
    }
}

/// Parses a group-function shorthand: `|x|` as `abs(x)`, `⌈x⌉` as `ceil(x)`,
/// `⌊x⌋` as `floor(x)`; the closing delimiter is consumed without being
/// checked, as the grammar has always done.
#[verifier::spinoff_prover]
#[verifier::rlimit(100)]
pub fn parse_group_fn(context: &mut Context) -> (r: Result<Expr, CalcError>)
    requires
        old(context).wf(),
    ensures
        final(context).wf(),
        final(context).tokens == old(context).tokens,
        final(context).symbol_table == old(context).symbol_table,
        final(context).angle_unit == old(context).angle_unit,
        old(context).pos <= final(context).pos,
        ({
            let t = old(context).tokens.deep_view();
            let pos = old(context).pos as int;
            (pos < t.len() && (t[pos].kind is Pipe || t[pos].kind is OpenCeil
                || t[pos].kind is OpenFloor)) ==> old(context).pos < final(context).pos
        }),
        ({
            let o = spec_parse_group_fn(
                old(context).tokens.deep_view(),
                old(context).pos as int,
                old(context).symbol_table@,
            );
            o.pos == final(context).pos as int && o.r == expr_res_view(r)
        }),
    decreases old(context).tokens@.len() - old(context).pos, 1int,
{
    reveal_with_fuel(spec_parse_group_fn, 1);
    reveal_with_fuel(spec_parse_expr, 1);
    reveal_with_fuel(spec_parse_sum, 1);
    if context.pos >= context.tokens.len() {
        return Err(CalcError::Unknown);
    }
    let k = peek(context).kind;
    let name: &str = match k {
        TokenKind::Pipe => "abs",
        TokenKind::OpenCeil => "ceil",
        TokenKind::OpenFloor => "floor",
        _ => {
            return Err(CalcError::Unknown);
        },
    };
    advance(context);
    let inner = match parse_expr(context) {
        Ok(e) => e,
        Err(e) => {
            return Err(e);
        },
    };
    advance(context);
    let args = vec![inner];
    proof {
        assert(exprs_view(args@) =~= seq![
            spec_parse_expr(
                old(context).tokens.deep_view(),
                old(context).pos + 1,
                old(context).symbol_table@,
            ).r->Ok_0,
        ]);
    }
    Ok(Expr::FnCall(name.to_owned(), args))
}

/// Parses an identifier primary, resolving it against the symbol
/// environment: a known function followed by a literal (`sqrt64`), a call
/// with a parenthesized argument list, a known variable, or the
/// character-split implicit-multiplication chain.
#[verifier::rlimit(100)]
#[verifier::spinoff_prover]
pub fn parse_identifier(context: &mut Context) -> (r: Result<Expr, CalcError>)
    requires
        old(context).wf(),
    ensures
        final(context).wf(),
        final(context).tokens == old(context).tokens,
        final(context).symbol_table == old(context).symbol_table,
        final(context).angle_unit == old(context).angle_unit,
        old(context).pos <= final(context).pos,
        ({
            let t = old(context).tokens.deep_view();
            let pos = old(context).pos as int;
            (pos < t.len() && t[pos].kind is Identifier)
                ==> old(context).pos < final(context).pos
        }),
        ({
            let o = spec_parse_identifier(
                old(context).tokens.deep_view(),
                old(context).pos as int,
                old(context).symbol_table@,
            );
            o.pos == final(context).pos as int && o.r == expr_res_view(r)
        }),
    decreases old(context).tokens@.len() - old(context).pos, 1int,
{
    reveal_with_fuel(spec_parse_identifier, 1);
    reveal_with_fuel(spec_parse_args_loop, 1);
    reveal_with_fuel(spec_parse_expr, 1);
    reveal_with_fuel(spec_parse_sum, 1);
    let ghost t = old(context).tokens.deep_view();
    let ghost pos0 = old(context).pos as int;
    let ghost st = old(context).symbol_table@;
    if context.pos >= context.tokens.len() {
        return Err(CalcError::Unknown);
    }
    let k0 = peek(context).kind;
    if !matches!(k0, TokenKind::Identifier) {
        return Err(CalcError::Unknown);
    }
    let identifier = advance(context);
    let ghost idv = t[pos0].value;
    if match_token(context, TokenKind::Literal) {
        if context.symbol_table.contains_fn(identifier.value.as_str()) {
            let lit = advance(context);
            let args = vec![Expr::Literal(lit.value)];
            proof {
                assert(exprs_view(args@) =~= seq![
                    ExprSpec::Literal(spec_peek(t, pos0 + 1).value),
                ]);
            }
            return Ok(Expr::FnCall(identifier.value, args));
        }
    }
    if match_token(context, TokenKind::OpenParenthesis) {
        advance(context);
        let mut parameters: Vec<Expr> = Vec::new();
        let first = match parse_expr(context) {
            Ok(e) => e,
            Err(e) => {
                return Err(e);
            },
        };
        parameters.push(first);
        proof {
            assert(exprs_view(parameters@) =~= seq![
                spec_parse_expr(t, pos0 + 2, st).r->Ok_0,
            ]);
        }
        while match_token(context, TokenKind::Comma)
            invariant
                context.wf(),
                context.tokens == old(context).tokens,
                context.symbol_table == old(context).symbol_table,
                context.angle_unit == old(context).angle_unit,
                t == context.tokens.deep_view(),
                st == context.symbol_table@,
                t == old(context).tokens.deep_view(),
                st == old(context).symbol_table@,
                pos0 == old(context).pos as int,
                idv == t[pos0].value,
                pos0 < context.pos as int,
                ({
                    let a = spec_parse_args_loop(t, context.pos as int, st, exprs_view(
                        parameters@,
                    ));
                    let o = spec_parse_identifier(t, pos0, st);
                    match a.r {
                        Ok(list) => o == (EOut {
                            r: Ok(ExprSpec::FnCall(idv, list)),
                            pos: a.pos,
                        }),
                        Err(err) => o == (EOut { r: Err(err), pos: a.pos }),
                    }
                }),
            decreases t.len() - context.pos,
        {
            reveal_with_fuel(spec_parse_identifier, 1);
            reveal_with_fuel(spec_parse_args_loop, 1);
            reveal_with_fuel(spec_parse_expr, 1);
            reveal_with_fuel(spec_parse_sum, 1);
            advance(context);
            let ghost pos_arg = context.pos as int;
            proof {
                assert(old(context).pos < context.pos);
                assert(context.pos <= context.tokens@.len());
            }
            let next = match parse_expr(context) {
                Ok(e) => e,
                Err(e) => {
                    return Err(e);
                },
            };
            let ghost prev_args = exprs_view(parameters@);
            parameters.push(next);
            proof {
                assert(exprs_view(parameters@) =~= prev_args.push(
                    spec_parse_expr(t, pos_arg, st).r->Ok_0,
                ));
            }
        }
        match consume(context, TokenKind::ClosedParenthesis) {
            Ok(_) => {},
            Err(e) => {
                return Err(e);
            },
        }
        return Ok(Expr::FnCall(identifier.value, parameters));
    }
    if context.symbol_table.contains_var(identifier.value.as_str()) {
        return Ok(Expr::Var(identifier.value));
    }
    if identifier.value.as_str().is_empty() {
        return Err(CalcError::Unknown);
    }
    Ok(char_mult_chain(&identifier.value))
}

/// Parses a variable declaration: `name = expression`. The binding is not
/// inserted into the symbol environment here; that happens at evaluation
/// time.
#[verifier::spinoff_prover]
#[verifier::rlimit(100)]
pub fn parse_var_decl_stmt(context: &mut Context) -> (r: Result<Stmt, CalcError>)
    requires
        old(context).wf(),
    ensures
        final(context).wf(),
        final(context).tokens == old(context).tokens,
        final(context).symbol_table == old(context).symbol_table,
        final(context).angle_unit == old(context).angle_unit,
        old(context).pos <= final(context).pos,
        old(context).pos < old(context).tokens@.len() ==> old(context).pos < final(context).pos,
        ({
            let o = spec_parse_var_decl(
                old(context).tokens.deep_view(),
                old(context).pos as int,
                old(context).symbol_table@,
            );
            o.pos == final(context).pos as int && o.st == final(context).symbol_table@ && o.r
                == stmt_res_view(r)
        }),
    decreases old(context).tokens@.len() - old(context).pos, 11int,
{
    reveal_with_fuel(spec_parse_var_decl, 1);
    let identifier = advance(context);
    advance(context);
    let expr = match parse_expr(context) {
        Ok(e) => e,
        Err(e) => {
            return Err(e);
        },
    };
    Ok(Stmt::VarDecl(identifier.value, Box::new(expr)))
}

/// Parses a statement that begins like a function call: if an `=` follows
/// the speculatively parsed call it becomes a function declaration (its
/// bare-variable arguments become the parameter names, and the declaration
/// is inserted into the symbol environment so later parsing can see it);
/// otherwise the cursor is rewound and the statement is re-parsed as a plain
/// expression.
#[verifier::rlimit(100)]
#[verifier::spinoff_prover]
pub fn parse_identifier_stmt(context: &mut Context) -> (r: Result<Stmt, CalcError>)
    requires
        old(context).wf(),
    ensures
        final(context).wf(),
        final(context).tokens == old(context).tokens,
        final(context).angle_unit == old(context).angle_unit,
        old(context).pos <= final(context).pos,
        old(context).pos < old(context).tokens@.len() ==> old(context).pos < final(context).pos,
        ({
            let o = spec_parse_identifier_stmt(
                old(context).tokens.deep_view(),
                old(context).pos as int,
                old(context).symbol_table@,
            );
            o.pos == final(context).pos as int && o.st == final(context).symbol_table@ && o.r
                == stmt_res_view(r)
        }),
    decreases old(context).tokens@.len() - old(context).pos, 12int,
{
    reveal_with_fuel(spec_parse_identifier_stmt, 1);
    reveal_with_fuel(spec_parse_expr_stmt, 1);
    let ghost t = old(context).tokens.deep_view();
    let ghost pos0 = old(context).pos as int;
    let ghost st = old(context).symbol_table@;
    let began_at = context.pos;
    let primary = match parse_primary(context) {
        Ok(e) => e,
        Err(e) => {
            return Err(e);
        },
    };
    if peek(context).kind == TokenKind::Equals {
        advance(context);
        let expr = match parse_expr(context) {
            Ok(e) => e,
            Err(e) => {
                return Err(e);
            },
        };
        if let Expr::FnCall(identifier, parameters) = primary {
            let ghost argsv = exprs_view(parameters@);
            let mut parameter_identifiers: Vec<String> = Vec::new();
            let mut i: usize = 0;
            while i < parameters.len()
                invariant
                    i <= parameters.len(),
                    argsv == exprs_view(parameters@),
                    argsv.len() == parameters@.len(),
                    params_view(parameter_identifiers@) == spec_params(argsv.take(i as int)),
                decreases parameters.len() - i,
            {
                let ghost prev = params_view(parameter_identifiers@);
                if let Expr::Var(p) = &parameters[i] {
                    parameter_identifiers.push(p.clone());
                    proof {
                        assert(params_view(parameter_identifiers@) =~= prev.push(p@));
                    }
                }
                proof {
                    assert(argsv.take(i + 1).drop_last() =~= argsv.take(i as int));
                    assert(argsv.take(i + 1).last() == exprs_view(parameters@)[i as int]);
                }
                i = i + 1;
            }
            proof {
                assert(argsv.take(parameters@.len() as int) =~= argsv);
            }
            let mut key = identifier.clone();
            key.append("()");
            let mut params_copy: Vec<String> = Vec::new();
            let mut j: usize = 0;
            while j < parameter_identifiers.len()
                invariant
                    j <= parameter_identifiers.len(),
                    params_copy@.len() == j,
                    forall|m: int| 0 <= m < j ==> params_copy@[m]@ == parameter_identifiers@[m]@,
                decreases parameter_identifiers.len() - j,
            {
                params_copy.push(parameter_identifiers[j].clone());
                j = j + 1;
            }
            proof {
                assert(params_view(params_copy@) =~= params_view(parameter_identifiers@));
            }
            let table_decl = Stmt::FnDecl(identifier.clone(), params_copy, Box::new(expr.clone()));
            context.symbol_table.insert(key.as_str(), table_decl);
            let fn_decl = Stmt::FnDecl(identifier, parameter_identifiers, Box::new(expr));
            Ok(fn_decl)
        } else {
            Err(CalcError::Unknown)
        }
    } else {
        context.pos = began_at;
        let e = match parse_expr(context) {
            Ok(x) => x,
            Err(err) => {
                return Err(err);
            },
        };
        Ok(Stmt::Expr(Box::new(e)))
    }
}

/// Parses one statement: a variable declaration if the next two tokens are
/// an identifier and `=`, the call/declaration disambiguation if they are an
/// identifier and `(`, and a plain expression otherwise.
#[verifier::spinoff_prover]
#[verifier::rlimit(100)]
pub fn parse_stmt(context: &mut Context) -> (r: Result<Stmt, CalcError>)
    requires
        old(context).wf(),
    ensures
        final(context).wf(),
        final(context).tokens == old(context).tokens,
        final(context).angle_unit == old(context).angle_unit,
        old(context).pos <= final(context).pos,
        old(context).pos < old(context).tokens@.len() ==> old(context).pos < final(context).pos,
        ({
            let o = spec_parse_stmt(
                old(context).tokens.deep_view(),
                old(context).pos as int,
                old(context).symbol_table@,
            );
            o.pos == final(context).pos as int && o.st == final(context).symbol_table@ && o.r
                == stmt_res_view(r)
        }),
    decreases old(context).tokens@.len() - old(context).pos, 13int,
{
    reveal_with_fuel(spec_parse_stmt, 1);
    reveal_with_fuel(spec_parse_expr_stmt, 1);
    if match_token(context, TokenKind::Identifier) {
        let k2 = peek_next(context).kind;
        if k2 == TokenKind::Equals {
            return parse_var_decl_stmt(context);
        }
        if k2 == TokenKind::OpenParenthesis {
            return parse_identifier_stmt(context);
        }
        let e = match parse_expr(context) {
            Ok(x) => x,
            Err(err) => {
                return Err(err);
            },
        };
        return Ok(Stmt::Expr(Box::new(e)));
    }
    let e = match parse_expr(context) {
        Ok(x) => x,
        Err(err) => {
            return Err(err);
        },
    };
    Ok(Stmt::Expr(Box::new(e)))
}

/// Parses a whole input: the text is turned into tokens, then statements are
/// parsed until the end marker, later statements seeing the symbol
/// environment left by earlier ones. The first failing statement aborts the
/// whole call; environment changes made by earlier statements are kept.
#[verifier::rlimit(100)]
#[verifier::spinoff_prover]
pub fn parse(context: &mut Context, input: &str) -> (r: Result<Vec<Stmt>, CalcError>)
    ensures
        final(context).wf(),
        final(context).tokens.deep_view() == crate::lexer::spec_lex(input@),
        final(context).angle_unit == old(context).angle_unit,
        ({
            let o = spec_parse_stmts(
                crate::lexer::spec_lex(input@),
                0,
                old(context).symbol_table@,
            );
            o.pos == final(context).pos as int && o.st == final(context).symbol_table@ && o.r
                == stmts_res_view(r)
        }),
{
    reveal_with_fuel(spec_parse_stmts, 1);
    reveal_with_fuel(spec_parse_stmt, 1);
    let tokens = crate::lexer::lex(input);
    context.tokens = tokens;
    context.pos = 0;
    let ghost t = crate::lexer::spec_lex(input@);
    let ghost st0 = old(context).symbol_table@;
    let mut statements: Vec<Stmt> = Vec::new();
    while !is_at_end(context)
        invariant
            context.wf(),
            context.tokens.deep_view() == t,
            context.angle_unit == old(context).angle_unit,
            t == crate::lexer::spec_lex(input@),
            st0 == old(context).symbol_table@,
            ({
                let full = spec_parse_stmts(t, 0, st0);
                let cont = spec_parse_stmts(t, context.pos as int, context.symbol_table@);
                match cont.r {
                    Ok(more) => full == (POut {
                        r: Ok(statements.deep_view() + more),
                        pos: cont.pos,
                        st: cont.st,
                    }),
                    Err(err) => full == (POut { r: Err(err), pos: cont.pos, st: cont.st }),
                }
            }),
        decreases context.tokens@.len() - context.pos,
    {
        reveal_with_fuel(spec_parse_stmts, 1);
        reveal_with_fuel(spec_parse_stmt, 1);
        let ghost pos_before = context.pos as int;
        let ghost st_before = context.symbol_table@;
        let s = match parse_stmt(context) {
            Ok(s) => s,
            Err(e) => {
                return Err(e);
            },
        };
        let ghost prev_stmts = statements.deep_view();
        statements.push(s);
        proof {
            assert(statements.deep_view() =~= prev_stmts.push(
                spec_parse_stmt(t, pos_before, st_before).r->Ok_0,
            ));
            assert(prev_stmts + (seq![spec_parse_stmt(t, pos_before, st_before).r->Ok_0]
                + spec_parse_stmts(t, context.pos as int, context.symbol_table@).r->Ok_0)
                =~= statements.deep_view() + spec_parse_stmts(
                t,
                context.pos as int,
                context.symbol_table@,
            ).r->Ok_0);
        }
    }
    proof {
        assert(statements.deep_view() + Seq::<StmtSpec>::empty() =~= statements.deep_view());
    }
    Ok(statements)
}

/// Parsing is a function of the token sequence and the symbol environment
/// alone: parsing identical input against an identical environment twice
/// yields structurally identical statements, cursor and environment — no
/// hidden session state leaks across calls.
pub proof fn lemma_parse_deterministic(
    t: Seq<TokenSpec>,
    st: Map<Seq<char>, StmtSpec>,
    r1: POut,
    r2: POut,
)
    requires
        r1 == spec_parse_stmts(t, 0, st),
        r2 == spec_parse_stmts(t, 0, st),
    ensures
        r1 == r2,
{
}

} // verus!
