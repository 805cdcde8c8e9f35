//! The abstract syntax tree produced by the parser.
//!
//! `Variable` and `Assign` nodes carry a stable integer identity, assigned
//! during parsing; the resolver's side table is keyed by it.

use vstd::prelude::*;
use crate::token::{Token, TokenV, TokenType, TokenTypeV, clone_bytes};

verus! {

/// A literal expression. Numbers carry the bits of their IEEE-754 double.
pub enum Literal {
    Number(u64),
    Str(Vec<u8>),
    True,
    False,
    Nil,
}

/// An expression node.
pub enum Expr {
    Assign { name: Token, id: u64, value: Box<Expr> },
    Binary { left: Box<Expr>, operator: TokenType, right: Box<Expr> },
    Call { callee: Box<Expr>, arguments: Vec<Expr> },
    Grouping(Box<Expr>),
    Literal(Literal),
    Logical { left: Box<Expr>, operator: TokenType, right: Box<Expr> },
    Unary { operator: TokenType, right: Box<Expr> },
    Variable { name: Token, id: u64 },
}

/// A statement node.
pub enum Stmt {
    Block(Vec<Stmt>),
    Expression(Expr),
    FunctionDecl(FunctionDecl),
    If { condition: Expr, then_branch: Box<Stmt>, else_branch: Option<Box<Stmt>> },
    Print(Expr),
    Return { keyword: Token, value: Option<Expr> },
    While { condition: Expr, body: Box<Stmt> },
    VarDecl { name: Token, initializer: Option<Expr> },
}

/// A function declaration: name, parameters, body.
pub struct FunctionDecl {
    pub name: Token,
    pub params: Vec<Token>,
    pub body: Vec<Stmt>,
}

/// Mathematical image of a `Literal`.
#[verifier::ext_equal]
pub ghost enum LiteralV {
    Number(u64),
    Str(Seq<u8>),
    True,
    False,
    Nil,
}

/// Mathematical image of an `Expr`.
#[verifier::ext_equal]
pub ghost enum ExprV {
    Assign { name: TokenV, id: u64, value: Box<ExprV> },
    Binary { left: Box<ExprV>, operator: TokenTypeV, right: Box<ExprV> },
    Call { callee: Box<ExprV>, arguments: Seq<ExprV> },
    Grouping(Box<ExprV>),
    Literal(LiteralV),
    Logical { left: Box<ExprV>, operator: TokenTypeV, right: Box<ExprV> },
    Unary { operator: TokenTypeV, right: Box<ExprV> },
    Variable { name: TokenV, id: u64 },
}

/// Mathematical image of a `Stmt`.
#[verifier::ext_equal]
pub ghost enum StmtV {
    Block(Seq<StmtV>),
    Expression(ExprV),
    FunctionDecl(FunctionDeclV),
    If { condition: ExprV, then_branch: Box<StmtV>, else_branch: Option<Box<StmtV>> },
    Print(ExprV),
    Return { keyword: TokenV, value: Option<ExprV> },
    While { condition: ExprV, body: Box<StmtV> },
    VarDecl { name: TokenV, initializer: Option<ExprV> },
}

/// Mathematical image of a `FunctionDecl`.
#[verifier::ext_equal]
pub ghost struct FunctionDeclV {
    pub name: TokenV,
    pub params: Seq<TokenV>,
    pub body: Seq<StmtV>,
}

pub open spec fn literal_view(l: Literal) -> LiteralV {
    match l {
        Literal::Number(n) => LiteralV::Number(n),
        Literal::Str(s) => LiteralV::Str(s@),
        Literal::True => LiteralV::True,
        Literal::False => LiteralV::False,
        Literal::Nil => LiteralV::Nil,
    }
}

pub open spec fn expr_view(e: Expr) -> ExprV
    decreases e,
{
    match e {
        Expr::Assign { name, id, value } => ExprV::Assign {
            name: name@,
            id,
            value: Box::new(expr_view(*value)),
        },
        Expr::Binary { left, operator, right } => ExprV::Binary {
            left: Box::new(expr_view(*left)),
            operator: operator@,
            right: Box::new(expr_view(*right)),
        },
        Expr::Call { callee, arguments } => ExprV::Call {
            callee: Box::new(expr_view(*callee)),
            arguments: exprs_view(arguments@),
        },
        Expr::Grouping(inner) => ExprV::Grouping(Box::new(expr_view(*inner))),
        Expr::Literal(l) => ExprV::Literal(literal_view(l)),
        Expr::Logical { left, operator, right } => ExprV::Logical {
            left: Box::new(expr_view(*left)),
            operator: operator@,
            right: Box::new(expr_view(*right)),
        },
        Expr::Unary { operator, right } => ExprV::Unary {
            operator: operator@,
            right: Box::new(expr_view(*right)),
        },
        Expr::Variable { name, id } => ExprV::Variable { name: name@, id },
    }
}

pub open spec fn exprs_view(s: Seq<Expr>) -> Seq<ExprV>
    decreases s,
{
    if s.len() == 0 {
        Seq::empty()
    } else {
        exprs_view(s.drop_last()).push(expr_view(s.last()))
    }
}

/// `exprs_view` maps `expr_view` over the sequence, element by element.
pub proof fn lemma_exprs_view(s: Seq<Expr>)
    ensures
        exprs_view(s).len() == s.len(),
        forall|i: int| 0 <= i < s.len() ==> exprs_view(s)[i] == expr_view(s[i]),
    decreases s.len(),
{
    if s.len() > 0 {
        lemma_exprs_view(s.drop_last());
    }
}

pub open spec fn stmt_view(s: Stmt) -> StmtV
    decreases s,
{
    match s {
        Stmt::Block(stmts) => StmtV::Block(stmts_view(stmts@)),
        Stmt::Expression(e) => StmtV::Expression(expr_view(e)),
        Stmt::FunctionDecl(d) => StmtV::FunctionDecl(decl_view(d)),
        Stmt::If { condition, then_branch, else_branch } => StmtV::If {
            condition: expr_view(condition),
            then_branch: Box::new(stmt_view(*then_branch)),
            else_branch: match else_branch {
                Some(b) => Some(Box::new(stmt_view(*b))),
                None => None,
            },
        },
        Stmt::Print(e) => StmtV::Print(expr_view(e)),
        Stmt::Return { keyword, value } => StmtV::Return {
            keyword: keyword@,
            value: match value {
                Some(e) => Some(expr_view(e)),
                None => None,
            },
        },
        Stmt::While { condition, body } => StmtV::While {
            condition: expr_view(condition),
            body: Box::new(stmt_view(*body)),
        },
        Stmt::VarDecl { name, initializer } => StmtV::VarDecl {
            name: name@,
            initializer: match initializer {
                Some(e) => Some(expr_view(e)),
                None => None,
            },
        },
    }
}

pub open spec fn stmts_view(s: Seq<Stmt>) -> Seq<StmtV>
    decreases s,
{
    if s.len() == 0 {
        Seq::empty()
    } else {
        stmts_view(s.drop_last()).push(stmt_view(s.last()))
    }
}

/// `stmts_view` maps `stmt_view` over the sequence, element by element.
pub proof fn lemma_stmts_view(s: Seq<Stmt>)
    ensures
        stmts_view(s).len() == s.len(),
        forall|i: int| 0 <= i < s.len() ==> stmts_view(s)[i] == stmt_view(s[i]),
    decreases s.len(),
{
    if s.len() > 0 {
        lemma_stmts_view(s.drop_last());
    }
}

pub open spec fn tokens_view(s: Seq<Token>) -> Seq<TokenV> {
    Seq::new(s.len(), |i: int| s[i]@)
}

pub open spec fn decl_view(d: FunctionDecl) -> FunctionDeclV
    decreases d,
{
    FunctionDeclV {
        name: d.name@,
        params: tokens_view(d.params@),
        body: stmts_view(d.body@),
    }
}

/// A structural size for expressions, used as a termination measure.
pub open spec fn expr_size(e: ExprV) -> nat
    decreases e,
{
    match e {
        ExprV::Assign { name: _, id: _, value } => 1 + expr_size(*value),
        ExprV::Binary { left, operator: _, right } => 1 + expr_size(*left) + expr_size(*right),
        ExprV::Call { callee, arguments } => 1 + expr_size(*callee) + exprs_size(arguments),
        ExprV::Grouping(inner) => 1 + expr_size(*inner),
        ExprV::Literal(_) => 1,
        ExprV::Logical { left, operator: _, right } => 1 + expr_size(*left) + expr_size(*right),
        ExprV::Unary { operator: _, right } => 1 + expr_size(*right),
        ExprV::Variable { .. } => 1,
    }
}

/// A structural size for expression lists.
pub open spec fn exprs_size(s: Seq<ExprV>) -> nat
    decreases s,
{
    if s.len() == 0 {
        0
    } else {
        1 + expr_size(s[0]) + exprs_size(s.subrange(1, s.len() as int))
    }
}

/// A structural size for statements, used as a termination measure.
pub open spec fn stmt_size(st: StmtV) -> nat
    decreases st,
{
    match st {
        StmtV::Block(stmts) => 1 + stmts_size(stmts),
        StmtV::Expression(e) => 1 + expr_size(e),
        StmtV::FunctionDecl(d) => 1 + stmts_size(d.body),
        StmtV::If { condition, then_branch, else_branch } => 1 + expr_size(condition)
            + stmt_size(*then_branch) + (match else_branch {
            Some(b) => stmt_size(*b),
            None => 0,
        }),
        StmtV::Print(e) => 1 + expr_size(e),
        StmtV::Return { keyword: _, value } => 1 + (match value {
            Some(e) => expr_size(e),
            None => 0,
        }),
        StmtV::While { condition, body } => 1 + expr_size(condition) + stmt_size(*body),
        StmtV::VarDecl { name: _, initializer } => 1 + (match initializer {
            Some(e) => expr_size(e),
            None => 0,
        }),
    }
}

/// A structural size for statement lists.
pub open spec fn stmts_size(s: Seq<StmtV>) -> nat
    decreases s,
{
    if s.len() == 0 {
        0
    } else {
        1 + stmt_size(s[0]) + stmts_size(s.subrange(1, s.len() as int))
    }
}

/// Each element of a list is smaller than the list.
pub proof fn lemma_exprs_size_elem(s: Seq<ExprV>, i: int)
    requires
        0 <= i < s.len(),
    ensures
        expr_size(s[i]) < exprs_size(s),
    decreases s.len(),
{
    if i > 0 {
        lemma_exprs_size_elem(s.subrange(1, s.len() as int), i - 1);
        assert(s.subrange(1, s.len() as int)[i - 1] == s[i]);
    }
}

/// Each element of a list is smaller than the list.
pub proof fn lemma_stmts_size_elem(s: Seq<StmtV>, i: int)
    requires
        0 <= i < s.len(),
    ensures
        stmt_size(s[i]) < stmts_size(s),
    decreases s.len(),
{
    if i > 0 {
        lemma_stmts_size_elem(s.subrange(1, s.len() as int), i - 1);
        assert(s.subrange(1, s.len() as int)[i - 1] == s[i]);
    }
}

impl View for Literal {
    type V = LiteralV;

    open spec fn view(&self) -> LiteralV {
        literal_view(*self)
    }
}

impl View for Expr {
    type V = ExprV;

    open spec fn view(&self) -> ExprV {
        expr_view(*self)
    }
}

impl View for Stmt {
    type V = StmtV;

    open spec fn view(&self) -> StmtV {
        stmt_view(*self)
    }
}

impl View for FunctionDecl {
    type V = FunctionDeclV;

    open spec fn view(&self) -> FunctionDeclV {
        decl_view(*self)
    }
}

impl Literal {
    /// Structural copy; the copy denotes the same literal.
    pub fn duplicate(&self) -> (r: Literal)
        ensures
            r@ == self@,
    {
        match self {
            Literal::Number(n) => Literal::Number(*n),
            Literal::Str(s) => Literal::Str(clone_bytes(s)),
            Literal::True => Literal::True,
            Literal::False => Literal::False,
            Literal::Nil => Literal::Nil,
        }
    }
}

impl Expr {
    /// Structural copy; the copy denotes the same expression (ids included).
    pub fn duplicate(&self) -> (r: Expr)
        ensures
            r@ == self@,
        decreases self,
    {
        match self {
            Expr::Assign { name, id, value } => Expr::Assign {
                name: name.duplicate(),
                id: *id,
                value: Box::new(value.duplicate()),
            },
            Expr::Binary { left, operator, right } => Expr::Binary {
                left: Box::new(left.duplicate()),
                operator: operator.duplicate(),
                right: Box::new(right.duplicate()),
            },
            Expr::Call { callee, arguments } => Expr::Call {
                callee: Box::new(callee.duplicate()),
                arguments: duplicate_exprs(arguments),
            },
            Expr::Grouping(inner) => Expr::Grouping(Box::new(inner.duplicate())),
            Expr::Literal(l) => Expr::Literal(l.duplicate()),
            Expr::Logical { left, operator, right } => Expr::Logical {
                left: Box::new(left.duplicate()),
                operator: operator.duplicate(),
                right: Box::new(right.duplicate()),
            },
            Expr::Unary { operator, right } => Expr::Unary {
                operator: operator.duplicate(),
                right: Box::new(right.duplicate()),
            },
            Expr::Variable { name, id } => Expr::Variable { name: name.duplicate(), id: *id },
        }
    }
}

/// Structural copy of a list of expressions.
pub fn duplicate_exprs(v: &Vec<Expr>) -> (r: Vec<Expr>)
    ensures
        exprs_view(r@) == exprs_view(v@),
    decreases v,
{
    let mut r: Vec<Expr> = Vec::new();
    let n = v.len();
    let mut i: usize = 0;
    while i < n
        invariant
            n == v@.len(),
            0 <= i <= n,
            r@.len() == i,
            forall|j: int| 0 <= j < i ==> expr_view(r@[j]) == expr_view(v@[j]),
        decreases n - i,
    {
        assert(decreases_to!(v => v@[i as int]));
        r.push(v[i].duplicate());
        i += 1;
    }
    proof {
        lemma_exprs_view(r@);
        lemma_exprs_view(v@);
    }
    assert(exprs_view(r@) =~= exprs_view(v@));
    r
}

impl Stmt {
    /// Structural copy; the copy denotes the same statement.
    pub fn duplicate(&self) -> (r: Stmt)
        ensures
            r@ == self@,
        decreases self,
    {
        match self {
            Stmt::Block(stmts) => Stmt::Block(duplicate_stmts(stmts)),
            Stmt::Expression(e) => Stmt::Expression(e.duplicate()),
            Stmt::FunctionDecl(d) => Stmt::FunctionDecl(d.duplicate()),
            Stmt::If { condition, then_branch, else_branch } => Stmt::If {
                condition: condition.duplicate(),
                then_branch: Box::new(then_branch.duplicate()),
                else_branch: match else_branch {
                    Some(b) => Some(Box::new(b.duplicate())),
                    None => None,
                },
            },
            Stmt::Print(e) => Stmt::Print(e.duplicate()),
            Stmt::Return { keyword, value } => Stmt::Return {
                keyword: keyword.duplicate(),
                value: match value {
                    Some(e) => Some(e.duplicate()),
                    None => None,
                },
            },
            Stmt::While { condition, body } => Stmt::While {
                condition: condition.duplicate(),
                body: Box::new(body.duplicate()),
            },
            Stmt::VarDecl { name, initializer } => Stmt::VarDecl {
                name: name.duplicate(),
                initializer: match initializer {
                    Some(e) => Some(e.duplicate()),
                    None => None,
                },
            },
        }
    }
}

/// Structural copy of a list of statements.
pub fn duplicate_stmts(v: &Vec<Stmt>) -> (r: Vec<Stmt>)
    ensures
        stmts_view(r@) == stmts_view(v@),
    decreases v,
{
    let mut r: Vec<Stmt> = Vec::new();
    let n = v.len();
    let mut i: usize = 0;
    while i < n
        invariant
            n == v@.len(),
            0 <= i <= n,
            r@.len() == i,
            forall|j: int| 0 <= j < i ==> stmt_view(r@[j]) == stmt_view(v@[j]),
        decreases n - i,
    {
        assert(decreases_to!(v => v@[i as int]));
        r.push(v[i].duplicate());
        i += 1;
    }
    proof {
        lemma_stmts_view(r@);
        lemma_stmts_view(v@);
    }
    assert(stmts_view(r@) =~= stmts_view(v@));
    r
}

/// Structural copy of a list of tokens.
pub fn duplicate_tokens(v: &Vec<Token>) -> (r: Vec<Token>)
    ensures
        tokens_view(r@) == tokens_view(v@),
{
    let mut r: Vec<Token> = Vec::new();
    let n = v.len();
    let mut i: usize = 0;
    while i < n
        invariant
            n == v@.len(),
            0 <= i <= n,
            r@.len() == i,
            forall|j: int| 0 <= j < i ==> r@[j]@ == v@[j]@,
        decreases n - i,
    {
        r.push(v[i].duplicate());
        i += 1;
    }
    assert(tokens_view(r@) =~= tokens_view(v@));
    r
}

impl FunctionDecl {
    /// Structural copy; the copy denotes the same declaration.
    pub fn duplicate(&self) -> (r: FunctionDecl)
        ensures
            r@ == self@,
        decreases self,
    {
        FunctionDecl {
            name: self.name.duplicate(),
            params: duplicate_tokens(&self.params),
            body: duplicate_stmts(&self.body),
        }
    }
}

} // verus!
