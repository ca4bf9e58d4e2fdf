//! The abstract syntax tree: expressions and statements, together with their
//! mathematical images ([`ExprSpec`], [`StmtSpec`]) used by every contract.

use vstd::prelude::*;

use crate::lexer::TokenKind;

verus! {

/// An expression node.
///
/// `Literal` keeps the raw numeric text; it is parsed into a number lazily at
/// evaluation time. `Group` keeps explicit parentheses as a distinct node so
/// later passes can tell explicit grouping from implicit precedence. `Unit`
/// wraps an expression with a per-term angle-unit override.
#[derive(Debug)]
pub enum Expr {
    Literal(String),
    Binary(Box<Expr>, TokenKind, Box<Expr>),
    Unary(TokenKind, Box<Expr>),
    Var(String),
    FnCall(String, Vec<Expr>),
    Group(Box<Expr>),
    Unit(Box<Expr>, TokenKind),
}

/// A statement: a one-shot expression, a variable declaration, or a function
/// declaration with its ordered parameter names.
#[derive(Debug)]
pub enum Stmt {
    Expr(Box<Expr>),
    VarDecl(String, Box<Expr>),
    FnDecl(String, Vec<String>, Box<Expr>),
}

/// The mathematical image of an [`Expr`], with text as character sequences.
pub ghost enum ExprSpec {
    Literal(Seq<char>),
    Binary(Box<ExprSpec>, TokenKind, Box<ExprSpec>),
    Unary(TokenKind, Box<ExprSpec>),
    Var(Seq<char>),
    FnCall(Seq<char>, Seq<ExprSpec>),
    Group(Box<ExprSpec>),
    Unit(Box<ExprSpec>, TokenKind),
}

/// The mathematical image of a [`Stmt`].
pub ghost enum StmtSpec {
    Expr(ExprSpec),
    VarDecl(Seq<char>, ExprSpec),
    FnDecl(Seq<char>, Seq<Seq<char>>, ExprSpec),
}

/// The image of an expression.
pub open spec fn expr_view(e: Expr) -> ExprSpec
    decreases e,
{
    match e {
        Expr::Literal(s) => ExprSpec::Literal(s@),
        Expr::Binary(l, op, r) => ExprSpec::Binary(
            Box::new(expr_view(*l)),
            op,
            Box::new(expr_view(*r)),
        ),
        Expr::Unary(op, inner) => ExprSpec::Unary(op, Box::new(expr_view(*inner))),
        Expr::Var(s) => ExprSpec::Var(s@),
        Expr::FnCall(name, args) => ExprSpec::FnCall(name@, exprs_view(args@)),
        Expr::Group(inner) => ExprSpec::Group(Box::new(expr_view(*inner))),
        Expr::Unit(inner, k) => ExprSpec::Unit(Box::new(expr_view(*inner)), k),
    }
}

/// The images of a run of expressions, in order.
pub open spec fn exprs_view(args: Seq<Expr>) -> Seq<ExprSpec>
    decreases args,
{
    Seq::new(
        args.len(),
        |i: int|
            if 0 <= i < args.len() {
                expr_view(args[i])
            } else {
                ExprSpec::Literal(Seq::empty())
            },
    )
}

/// The images of a run of names, in order.
pub open spec fn params_view(ps: Seq<String>) -> Seq<Seq<char>> {
    Seq::new(ps.len(), |i: int| ps[i]@)
}

/// The image of a statement.
pub open spec fn stmt_view(s: Stmt) -> StmtSpec {
    match s {
        Stmt::Expr(e) => StmtSpec::Expr(expr_view(*e)),
        Stmt::VarDecl(name, e) => StmtSpec::VarDecl(name@, expr_view(*e)),
        Stmt::FnDecl(name, params, body) => StmtSpec::FnDecl(
            name@,
            params_view(params@),
            expr_view(*body),
        ),
    }
}

impl DeepView for Expr {
    type V = ExprSpec;

    open spec fn deep_view(&self) -> ExprSpec {
        expr_view(*self)
    }
}

impl View for Expr {
    type V = ExprSpec;

    open spec fn view(&self) -> ExprSpec {
        expr_view(*self)
    }
}

impl DeepView for Stmt {
    type V = StmtSpec;

    open spec fn deep_view(&self) -> StmtSpec {
        stmt_view(*self)
    }
}

impl View for Stmt {
    type V = StmtSpec;

    open spec fn view(&self) -> StmtSpec {
        stmt_view(*self)
    }
}

impl Clone for Expr {
    /// A structural copy: the copy has the same image as the original.
    fn clone(&self) -> (r: Expr)
        ensures
            r.deep_view() == self.deep_view(),
        decreases self,
    {
        match self {
            Expr::Literal(s) => Expr::Literal(s.clone()),
            Expr::Binary(l, op, r2) => Expr::Binary(
                Box::new((**l).clone()),
                *op,
                Box::new((**r2).clone()),
            ),
            Expr::Unary(op, e) => Expr::Unary(*op, Box::new((**e).clone())),
            Expr::Var(s) => Expr::Var(s.clone()),
            Expr::FnCall(name, args) => {
                let mut out: Vec<Expr> = Vec::new();
                let mut i: usize = 0;
                while i < args.len()
                    invariant
                        i <= args.len(),
                        out@.len() == i,
                        self == Expr::FnCall(*name, *args),
                        forall|j: int| 0 <= j < i ==> out@[j].deep_view() == args@[j].deep_view(),
                    decreases args.len() - i,
                {
                    proof {
                        assert(decreases_to!(*self => self->FnCall_1));
                        assert(self->FnCall_1 == *args);
                        assert(decreases_to!(*args => args@));
                        assert(decreases_to!(args@ => args@[i as int]));
                        assert(decreases_to!(*self => args@[i as int]));
                    }
                    out.push(args[i].clone());
                    i = i + 1;
                }
                proof {
                    assert(exprs_view(out@) =~= exprs_view(args@));
                }
                Expr::FnCall(name.clone(), out)
            },
            Expr::Group(e) => Expr::Group(Box::new((**e).clone())),
            Expr::Unit(e, k) => Expr::Unit(Box::new((**e).clone()), *k),
        }
    }
}

impl PartialEq for Expr {
    /// Structural equality: two expressions are equal exactly when their
    /// images are.
    fn eq(&self, other: &Expr) -> (r: bool)
        decreases self,
    {
        match (self, other) {
            (Expr::Literal(a), Expr::Literal(b)) => *a == *b,
            (Expr::Binary(l1, o1, r1), Expr::Binary(l2, o2, r2)) => {
                (**l1).eq(&**l2) && *o1 == *o2 && (**r1).eq(&**r2)
            },
            (Expr::Unary(o1, e1), Expr::Unary(o2, e2)) => *o1 == *o2 && (**e1).eq(&**e2),
            (Expr::Var(a), Expr::Var(b)) => *a == *b,
            (Expr::FnCall(n1, a1), Expr::FnCall(n2, a2)) => {
                if !(*n1 == *n2) {
                    return false;
                }
                if a1.len() != a2.len() {
                    proof {
                        assert(exprs_view(a1@).len() != exprs_view(a2@).len());
                    }
                    return false;
                }
                let mut i: usize = 0;
                while i < a1.len()
                    invariant
                        i <= a1.len(),
                        a1@.len() == a2@.len(),
                        n1@ == n2@,
                        self == Expr::FnCall(*n1, *a1),
                        other == Expr::FnCall(*n2, *a2),
                        forall|j: int| 0 <= j < i ==> a1@[j].deep_view() == a2@[j].deep_view(),
                    decreases a1.len() - i,
                {
                    proof {
                        assert(decreases_to!(*self => self->FnCall_1));
                        assert(self->FnCall_1 == *a1);
                        assert(decreases_to!(*a1 => a1@));
                        assert(decreases_to!(a1@ => a1@[i as int]));
                        assert(decreases_to!(*self => a1@[i as int]));
                    }
                    if !a1[i].eq(&a2[i]) {
                        proof {
                            assert(exprs_view(a1@)[i as int] == expr_view(a1@[i as int]));
                            assert(exprs_view(a2@)[i as int] == expr_view(a2@[i as int]));
                        }
                        return false;
                    }
                    i = i + 1;
                }
                proof {
                    assert(exprs_view(a1@) =~= exprs_view(a2@));
                }
                true
            },
            (Expr::Group(e1), Expr::Group(e2)) => (**e1).eq(&**e2),
            (Expr::Unit(e1, k1), Expr::Unit(e2, k2)) => (**e1).eq(&**e2) && *k1 == *k2,
            _ => false,
        }
    }
}

impl vstd::std_specs::cmp::PartialEqSpecImpl for Expr {
    open spec fn obeys_eq_spec() -> bool {
        true
    }

    open spec fn eq_spec(&self, other: &Expr) -> bool {
        self.deep_view() == other.deep_view()
    }
}

impl PartialEq for Stmt {
    /// Structural equality: two statements are equal exactly when their
    /// images are.
    fn eq(&self, other: &Stmt) -> (r: bool) {
        match (self, other) {
            (Stmt::Expr(a), Stmt::Expr(b)) => (**a).eq(&**b),
            (Stmt::VarDecl(n1, e1), Stmt::VarDecl(n2, e2)) => *n1 == *n2 && (**e1).eq(&**e2),
            (Stmt::FnDecl(n1, p1, b1), Stmt::FnDecl(n2, p2, b2)) => {
                if !(*n1 == *n2) {
                    return false;
                }
                if p1.len() != p2.len() {
                    proof {
                        assert(params_view(p1@).len() != params_view(p2@).len());
                    }
                    return false;
                }
                let mut i: usize = 0;
                while i < p1.len()
                    invariant
                        i <= p1.len(),
                        p1@.len() == p2@.len(),
                        n1@ == n2@,
                        self == Stmt::FnDecl(*n1, *p1, *b1),
                        other == Stmt::FnDecl(*n2, *p2, *b2),
                        forall|j: int| 0 <= j < i ==> p1@[j]@ == p2@[j]@,
                    decreases p1.len() - i,
                {
                    let x = &p1[i];
                    let y = &p2[i];
                    if !(*x == *y) {
                        proof {
                            assert(params_view(p1@)[i as int] == p1@[i as int]@);
                            assert(params_view(p2@)[i as int] == p2@[i as int]@);
                        }
                        return false;
                    }
                    i = i + 1;
                }
                proof {
                    assert(params_view(p1@) =~= params_view(p2@));
                }
                (**b1).eq(&**b2)
            },
            _ => false,
        }
    }
}

impl vstd::std_specs::cmp::PartialEqSpecImpl for Stmt {
    open spec fn obeys_eq_spec() -> bool {
        true
    }

    open spec fn eq_spec(&self, other: &Stmt) -> bool {
        self.deep_view() == other.deep_view()
    }
}

} // verus!
