//! The lexical resolver: a static pre-pass that annotates every variable
//! use with its scope distance.
//!
//! It keeps a stack of scopes, each mapping a name to a `defined` flag
//! (declared-but-not-yet-defined names make reading a variable in its own
//! initializer a diagnostic), records in the side table, for each
//! `Variable` and `Assign` identity, how many scopes to climb to its
//! declaration (no entry means global), and reports re-declarations in one
//! scope and `return` outside any function. Diagnostics never stop the
//! walk. The `spec_resolve_` functions define the whole pass; each method
//! is proved to leave exactly the state they say.

use vstd::prelude::*;
use std::collections::HashMap;
use crate::ast::{Expr, ExprV, Stmt, StmtV, FunctionDecl, FunctionDeclV, expr_view, stmt_view,
    decl_view,
    stmts_view, exprs_view, expr_size, exprs_size, stmt_size, stmts_size, lemma_stmts_view,
    lemma_exprs_view};
use crate::token::{Token, TokenV, clone_bytes, bytes_equal};
use crate::error::{reported_text, report_error};
use crate::text::{s_already_declared, t_already_declared, s_self_initializer,
    t_self_initializer, s_return_from_top_level, t_return_from_top_level};

verus! {

broadcast use vstd::std_specs::hash::group_hash_axioms;

/// One name in a scope, with whether its initializer has finished.
pub struct ScopeEntry {
    pub name: Vec<u8>,
    pub defined: bool,
}

/// Mathematical image of a `ScopeEntry`.
#[verifier::ext_equal]
pub ghost struct ScopeEntryV {
    pub name: Seq<u8>,
    pub defined: bool,
}

impl View for ScopeEntry {
    type V = ScopeEntryV;

    open spec fn view(&self) -> ScopeEntryV {
        ScopeEntryV { name: self.name@, defined: self.defined }
    }
}

/// The resolver: the scope stack (innermost last), whether the walk is
/// inside a function body, the side table built so far, and the
/// diagnostics reported so far.
pub struct Resolver {
    pub scopes: Vec<Vec<ScopeEntry>>,
    pub in_function: bool,
    pub locals: HashMap<u64, u32>,
    pub diagnostics: Vec<Vec<u8>>,
}

/// Mathematical image of a `Resolver`.
#[verifier::ext_equal]
pub ghost struct RState {
    pub scopes: Seq<Seq<ScopeEntryV>>,
    pub in_function: bool,
    pub locals: Map<u64, u32>,
    pub diags: Seq<Seq<u8>>,
}

impl View for Resolver {
    type V = RState;

    open spec fn view(&self) -> RState {
        RState {
            scopes: Seq::new(
                self.scopes@.len(),
                |i: int|
                    Seq::new(
                        self.scopes@[i]@.len(),
                        |j: int| self.scopes@[i]@[j]@,
                    ),
            ),
            in_function: self.in_function,
            locals: self.locals@,
            diags: Seq::new(self.diagnostics@.len(), |i: int| self.diagnostics@[i]@),
        }
    }
}

/// The index of `name` in one scope, or -1: the entry written last wins.
pub open spec fn scope_index(sc: Seq<ScopeEntryV>, name: Seq<u8>) -> int
    decreases sc.len(),
{
    if sc.len() == 0 {
        -1
    } else if sc.last().name == name {
        sc.len() - 1
    } else {
        scope_index(sc.drop_last(), name)
    }
}

/// `scope_index` finds the last entry of `name`, and -1 exactly when there
/// is none.
pub proof fn lemma_scope_index(sc: Seq<ScopeEntryV>, name: Seq<u8>)
    ensures
        -1 <= scope_index(sc, name) < sc.len(),
        scope_index(sc, name) >= 0 ==> sc[scope_index(sc, name)].name == name,
        forall|j: int| scope_index(sc, name) < j < sc.len() ==> sc[j].name != name,
    decreases sc.len(),
{
    if sc.len() > 0 && sc.last().name != name {
        lemma_scope_index(sc.drop_last(), name);
        assert(forall|j: int| 0 <= j < sc.len() - 1 ==> sc[j] == sc.drop_last()[j]);
    }
}

/// The scope after writing `name` with the given flag: an existing entry
/// is replaced, otherwise one is appended.
pub open spec fn scope_set(sc: Seq<ScopeEntryV>, name: Seq<u8>, defined: bool) -> Seq<
    ScopeEntryV,
> {
    let e = ScopeEntryV { name, defined };
    if scope_index(sc, name) >= 0 {
        sc.update(scope_index(sc, name), e)
    } else {
        sc.push(e)
    }
}

/// Declaring `name` in the innermost scope: a re-declaration there is
/// reported (located at `at`), and the entry is written undefined. Outside
/// any scope (at top level) nothing is recorded.
pub open spec fn spec_declare(rs: RState, name: Seq<u8>, at: TokenV) -> RState {
    if rs.scopes.len() == 0 {
        rs
    } else {
        let top = rs.scopes.last();
        let rs1 = if scope_index(top, name) >= 0 {
            RState { diags: rs.diags.push(reported_text(s_already_declared(), at)), ..rs }
        } else {
            rs
        };
        RState {
            scopes: rs1.scopes.update(rs1.scopes.len() - 1, scope_set(top, name, false)),
            ..rs1
        }
    }
}

/// Defining `name` in the innermost scope: its entry is written defined.
pub open spec fn spec_define_name(rs: RState, name: Seq<u8>) -> RState {
    if rs.scopes.len() == 0 {
        rs
    } else {
        RState {
            scopes: rs.scopes.update(
                rs.scopes.len() - 1,
                scope_set(rs.scopes.last(), name, true),
            ),
            ..rs
        }
    }
}

/// The distance from the innermost scope to the nearest scope declaring
/// `name`, searching from scope `k` inward-to-outward, or -1.
pub open spec fn find_depth_from(scopes: Seq<Seq<ScopeEntryV>>, name: Seq<u8>, k: int) -> int
    decreases k + 1,
{
    if k < 0 || k >= scopes.len() {
        -1
    } else if scope_index(scopes[k], name) >= 0 {
        scopes.len() - 1 - k
    } else {
        find_depth_from(scopes, name, k - 1)
    }
}

/// The distance to the nearest scope declaring `name`, or -1 if no scope
/// does (the name is then treated as global).
pub open spec fn find_depth(scopes: Seq<Seq<ScopeEntryV>>, name: Seq<u8>) -> int {
    find_depth_from(scopes, name, scopes.len() - 1)
}

/// Recording a variable use: if some scope declares the name, the side
/// table gains the use's identity at the found distance; otherwise nothing
/// is recorded.
pub open spec fn spec_resolve_local(rs: RState, id: u64, name: Seq<u8>) -> RState {
    let d = find_depth(rs.scopes, name);
    if 0 <= d <= u32::MAX {
        RState { locals: rs.locals.insert(id, d as u32), ..rs }
    } else {
        rs
    }
}

/// A found distance is non-negative and smaller than the scope depth.
pub proof fn lemma_find_depth_bounds(scopes: Seq<Seq<ScopeEntryV>>, name: Seq<u8>, k: int)
    ensures
        find_depth_from(scopes, name, k) == -1 || (k < scopes.len() && 0 <= find_depth_from(
            scopes,
            name,
            k,
        ) < scopes.len()),
    decreases k + 1,
{
    if 0 <= k < scopes.len() && scope_index(scopes[k], name) < 0 {
        lemma_find_depth_bounds(scopes, name, k - 1);
    }
}

/// Resolving one expression.
pub open spec fn spec_resolve_expr(rs: RState, e: ExprV) -> RState
    decreases expr_size(e), 0int,
{
    match e {
        ExprV::Assign { name, id, value } => {
            let rs1 = spec_resolve_expr(rs, *value);
            spec_resolve_local(rs1, id, name.lexeme)
        },
        ExprV::Binary { left, operator: _, right } => {
            let rs1 = spec_resolve_expr(rs, *left);
            spec_resolve_expr(rs1, *right)
        },
        ExprV::Call { callee, arguments } => {
            let rs1 = spec_resolve_expr(rs, *callee);
            spec_resolve_exprs(rs1, arguments)
        },
        ExprV::Grouping(inner) => spec_resolve_expr(rs, *inner),
        ExprV::Literal(_) => rs,
        ExprV::Logical { left, operator: _, right } => {
            let rs1 = spec_resolve_expr(rs, *left);
            spec_resolve_expr(rs1, *right)
        },
        ExprV::Unary { operator: _, right } => spec_resolve_expr(rs, *right),
        ExprV::Variable { name, id } => {
            let rs1 = if rs.scopes.len() > 0 && scope_index(rs.scopes.last(), name.lexeme) >= 0
                && !rs.scopes.last()[scope_index(rs.scopes.last(), name.lexeme)].defined {
                RState {
                    diags: rs.diags.push(reported_text(s_self_initializer(), name)),
                    ..rs
                }
            } else {
                rs
            };
            spec_resolve_local(rs1, id, name.lexeme)
        },
    }
}

/// Resolving a list of expressions, left to right.
pub open spec fn spec_resolve_exprs(rs: RState, es: Seq<ExprV>) -> RState
    decreases exprs_size(es), 1int,
{
    if es.len() == 0 {
        rs
    } else {
        let rs1 = spec_resolve_expr(rs, es[0]);
        spec_resolve_exprs(rs1, es.subrange(1, es.len() as int))
    }
}

/// Declaring and defining each parameter, left to right.
pub open spec fn spec_declare_params(rs: RState, params: Seq<TokenV>) -> RState
    decreases params.len(),
{
    if params.len() == 0 {
        rs
    } else {
        let rs1 = spec_declare_params(rs, params.drop_last());
        let p = params.last();
        spec_define_name(spec_declare(rs1, p.lexeme, p), p.lexeme)
    }
}

/// Resolving a function body: a fresh scope with the parameters declared
/// and defined, the body walked with the in-function flag set, then the
/// scope dropped and the flag restored.
pub open spec fn spec_resolve_function(rs: RState, d: FunctionDeclV) -> RState
    decreases stmts_size(d.body), 2int,
{
    let saved = rs.in_function;
    let rs1 = RState { scopes: rs.scopes.push(Seq::empty()), in_function: true, ..rs };
    let rs2 = spec_declare_params(rs1, d.params);
    let rs3 = spec_resolve_stmts(rs2, d.body);
    RState {
        scopes: if rs3.scopes.len() > 0 {
            rs3.scopes.drop_last()
        } else {
            rs3.scopes
        },
        in_function: saved,
        ..rs3
    }
}

/// Resolving one statement.
pub open spec fn spec_resolve_stmt(rs: RState, st: StmtV) -> RState
    decreases stmt_size(st), 1int,
{
    match st {
        StmtV::Block(stmts) => {
            let rs1 = RState { scopes: rs.scopes.push(Seq::empty()), ..rs };
            let rs2 = spec_resolve_stmts(rs1, stmts);
            RState {
                scopes: if rs2.scopes.len() > 0 {
                    rs2.scopes.drop_last()
                } else {
                    rs2.scopes
                },
                ..rs2
            }
        },
        StmtV::Expression(e) => spec_resolve_expr(rs, e),
        StmtV::FunctionDecl(d) => {
            let rs1 = spec_define_name(spec_declare(rs, d.name.lexeme, d.name), d.name.lexeme);
            spec_resolve_function(rs1, d)
        },
        StmtV::If { condition, then_branch, else_branch } => {
            let rs1 = spec_resolve_expr(rs, condition);
            let rs2 = spec_resolve_stmt(rs1, *then_branch);
            match else_branch {
                Some(b) => spec_resolve_stmt(rs2, *b),
                None => rs2,
            }
        },
        StmtV::Print(e) => spec_resolve_expr(rs, e),
        StmtV::Return { keyword, value } => {
            let rs1 = if !rs.in_function {
                RState {
                    diags: rs.diags.push(reported_text(s_return_from_top_level(), keyword)),
                    ..rs
                }
            } else {
                rs
            };
            match value {
                Some(e) => spec_resolve_expr(rs1, e),
                None => rs1,
            }
        },
        StmtV::While { condition, body } => {
            let rs1 = spec_resolve_expr(rs, condition);
            spec_resolve_stmt(rs1, *body)
        },
        StmtV::VarDecl { name, initializer } => {
            let rs1 = spec_declare(rs, name.lexeme, name);
            let rs2 = match initializer {
                Some(e) => spec_resolve_expr(rs1, e),
                None => rs1,
            };
            spec_define_name(rs2, name.lexeme)
        },
    }
}

/// Resolving statements in order.
pub open spec fn spec_resolve_stmts(rs: RState, ss: Seq<StmtV>) -> RState
    decreases stmts_size(ss), 0int,
{
    if ss.len() == 0 {
        rs
    } else {
        let rs1 = spec_resolve_stmt(rs, ss[0]);
        spec_resolve_stmts(rs1, ss.subrange(1, ss.len() as int))
    }
}


impl Resolver {
    /// A fresh resolver: no scopes (the walk starts at top level, where
    /// declarations are global), outside any function, nothing recorded.
    pub fn new() -> (r: Resolver)
        ensures
            r@ == (RState {
                scopes: Seq::empty(),
                in_function: false,
                locals: Map::empty(),
                diags: Seq::empty(),
            }),
    {
        let r = Resolver {
            scopes: Vec::new(),
            in_function: false,
            locals: HashMap::new(),
            diagnostics: Vec::new(),
        };
        proof {
            assert(r@ =~~= (RState {
                scopes: Seq::<Seq<ScopeEntryV>>::empty(),
                in_function: false,
                locals: Map::<u64, u32>::empty(),
                diags: Seq::<Seq<u8>>::empty(),
            }));
        }
        r
    }

    /// The diagnostics reported while resolving.
    pub fn diagnostics(&self) -> (r: &Vec<Vec<u8>>)
        ensures
            r@.len() == self@.diags.len(),
            forall|i: int| 0 <= i < r@.len() ==> r@[i]@ == self@.diags[i],
    {
        &self.diagnostics
    }

    /// Hands the finished side table over (to the interpreter).
    pub fn into_table(self) -> (r: HashMap<u64, u32>)
        ensures
            r@ == self@.locals,
    {
        let Resolver { scopes: _, in_function: _, locals, diagnostics: _ } = self;
        locals
    }

    /// The index of `name` in scope `t`, as the executable counterpart of
    /// `scope_index`.
    fn find_in_scope(&self, t: usize, name: &Vec<u8>) -> (r: Option<usize>)
        requires
            t < self@.scopes.len(),
        ensures
            match r {
                Some(i) => i == scope_index(self@.scopes[t as int], name@),
                None => scope_index(self@.scopes[t as int], name@) == -1,
            },
    {
        let sc = &self.scopes[t];
        let ghost gsc = self@.scopes[t as int];
        let mut i: usize = sc.len();
        proof {
            lemma_scope_index(gsc, name@);
        }
        while i > 0
            invariant
                t < self@.scopes.len(),
                gsc == self@.scopes[t as int],
                i <= sc@.len() == gsc.len(),
                sc == &self.scopes@[t as int],
                forall|j: int| i <= j < gsc.len() ==> gsc[j].name != name@,
            decreases i,
        {
            i = i - 1;
            assert(gsc[i as int].name == sc@[i as int]@.name);
            if bytes_equal(sc[i].name.as_slice(), name.as_slice()) {
                proof {
                    lemma_scope_index(gsc, name@);
                    assert(scope_index(gsc, name@) == i) by {
                        if scope_index(gsc, name@) > i {
                            assert(gsc[scope_index(gsc, name@)].name == name@);
                        }
                        if scope_index(gsc, name@) < i {
                            assert(gsc[i as int].name != name@);
                        }
                    }
                }
                return Some(i);
            }
        }
        proof {
            lemma_scope_index(gsc, name@);
            if scope_index(gsc, name@) >= 0 {
                assert(gsc[scope_index(gsc, name@)].name == name@);
            }
        }
        None
    }

    /// Writes `name` into scope `t` with the given flag (replacing an
    /// existing entry), as the executable counterpart of `scope_set`.
    fn set_in_scope(&mut self, t: usize, name: &Vec<u8>, defined: bool)
        requires
            t < old(self)@.scopes.len(),
        ensures
            final(self)@ == (RState {
                scopes: old(self)@.scopes.update(
                    t as int,
                    scope_set(old(self)@.scopes[t as int], name@, defined),
                ),
                ..old(self)@
            }),
    {
        let e = ScopeEntry { name: clone_bytes(name), defined };
        match self.find_in_scope(t, name) {
            Some(i) => {
                proof {
                    lemma_scope_index(self@.scopes[t as int], name@);
                }
                self.scopes[t][i] = e;
                proof {
                    assert(self@.scopes[t as int] =~= scope_set(
                        old(self)@.scopes[t as int],
                        name@,
                        defined,
                    ));
                    assert(self@ =~~= (RState {
                        scopes: old(self)@.scopes.update(
                            t as int,
                            scope_set(old(self)@.scopes[t as int], name@, defined),
                        ),
                        ..old(self)@
                    }));
                }
            },
            None => {
                self.scopes[t].push(e);
                proof {
                    assert(self@.scopes[t as int] =~= scope_set(
                        old(self)@.scopes[t as int],
                        name@,
                        defined,
                    ));
                    assert(self@ =~~= (RState {
                        scopes: old(self)@.scopes.update(
                            t as int,
                            scope_set(old(self)@.scopes[t as int], name@, defined),
                        ),
                        ..old(self)@
                    }));
                }
            },
        }
    }

    /// Declares `name` in the innermost scope; a re-declaration there is
    /// reported. Does exactly what `spec_declare` says.
    fn declare(&mut self, name_tok: &Token)
        ensures
            final(self)@ == spec_declare(old(self)@, name_tok@.lexeme, name_tok@),
    {
        let n = self.scopes.len();
        if n == 0 {
            return;
        }
        let t = n - 1;
        proof {
            assert(self@.scopes[t as int] == self@.scopes.last());
        }
        match self.find_in_scope(t, &name_tok.lexeme) {
            Some(_) => {
                let ghost s0 = self@;
                let d = report_error(name_tok, &t_already_declared());
                self.diagnostics.push(d);
                proof {
                    assert(self@ =~~= (RState {
                        diags: s0.diags.push(
                            reported_text(s_already_declared(), name_tok@),
                        ),
                        ..s0
                    }));
                }
            },
            None => {},
        }
        self.set_in_scope(t, &name_tok.lexeme, false);
    }

    /// Marks `name` defined in the innermost scope. Does exactly what
    /// `spec_define_name` says.
    fn define_name(&mut self, name_tok: &Token)
        ensures
            final(self)@ == spec_define_name(old(self)@, name_tok@.lexeme),
    {
        let n = self.scopes.len();
        if n == 0 {
            return;
        }
        let t = n - 1;
        proof {
            assert(self@.scopes[t as int] == self@.scopes.last());
        }
        self.set_in_scope(t, &name_tok.lexeme, true);
    }

    /// Records a variable use in the side table at the distance of the
    /// nearest declaring scope, if any. Does exactly what
    /// `spec_resolve_local` says.
    #[verifier::loop_isolation(false)]
    fn resolve_local(&mut self, id: u64, name: &Vec<u8>)
        ensures
            final(self)@ == spec_resolve_local(old(self)@, id, name@),
    {
        let n = self.scopes.len();
        let ghost sv = self@.scopes;
        let mut i: usize = n;
        proof {
            lemma_find_depth_bounds(sv, name@, n as int - 1);
        }
        while i > 0
            invariant
                n == sv.len(),
                sv == self@.scopes,
                self@ == old(self)@,
                i <= n,
                find_depth(sv, name@) == find_depth_from(sv, name@, i as int - 1),
            decreases i,
        {
            i = i - 1;
            match self.find_in_scope(i, name) {
                Some(_) => {
                    let d = n - 1 - i;
                    let ghost s0 = self@;
                    if d <= u32::MAX as usize {
                        self.locals.insert(id, d as u32);
                        proof {
                            assert(find_depth(sv, name@) == d);
                            assert(self@ =~~= (RState {
                                locals: s0.locals.insert(id, d as u32),
                                ..s0
                            }));
                        }
                    }
                    return;
                },
                None => {},
            }
        }
        proof {
            assert(find_depth(sv, name@) == -1);
        }
    }

    /// Resolves one expression. Does exactly what `spec_resolve_expr`
    /// says.
    #[verifier::loop_isolation(false)]
    pub fn resolve_expression(&mut self, expression: &Expr)
        ensures
            final(self)@ == spec_resolve_expr(old(self)@, expr_view(*expression)),
        decreases expr_size(expr_view(*expression)), 0int,
    {
        match expression {
            Expr::Assign { name, id, value } => {
                self.resolve_expression(value);
                self.resolve_local(*id, &name.lexeme);
            },
            Expr::Binary { left, operator: _, right } => {
                self.resolve_expression(left);
                self.resolve_expression(right);
            },
            Expr::Call { callee, arguments } => {
                self.resolve_expression(callee);
                let ghost av = exprs_view(arguments@);
                let ghost rs1 = self@;
                proof {
                    lemma_exprs_view(arguments@);
                    assert(av.subrange(0, av.len() as int) =~= av);
                }
                let m = arguments.len();
                let mut i: usize = 0;
                while i < m
                    invariant
                        m == arguments@.len(),
                        av == exprs_view(arguments@),
                        av.len() == m,
                        forall|j: int| 0 <= j < m ==> av[j] == expr_view(arguments@[j]),
                        0 <= i <= m,
                        spec_resolve_exprs(rs1, av) == spec_resolve_exprs(
                            self@,
                            av.subrange(i as int, m as int),
                        ),
                    decreases m - i,
                {
                    proof {
                        crate::ast::lemma_exprs_size_elem(av, i as int);
                        let sub = av.subrange(i as int, m as int);
                        assert(sub[0] == av[i as int]);
                        assert(sub.subrange(1, sub.len() as int) =~= av.subrange(
                            i + 1,
                            m as int,
                        ));
                    }
                    self.resolve_expression(&arguments[i]);
                    i += 1;
                }
                proof {
                    assert(av.subrange(m as int, m as int) =~= Seq::<ExprV>::empty());
                }
            },
            Expr::Grouping(inner) => {
                self.resolve_expression(inner);
            },
            Expr::Literal(_) => {},
            Expr::Logical { left, operator: _, right } => {
                self.resolve_expression(left);
                self.resolve_expression(right);
            },
            Expr::Unary { operator: _, right } => {
                self.resolve_expression(right);
            },
            Expr::Variable { name, id } => {
                let n = self.scopes.len();
                if n > 0 {
                    proof {
                        assert(self@.scopes[n - 1] == self@.scopes.last());
                    }
                    match self.find_in_scope(n - 1, &name.lexeme) {
                        Some(k) => {
                            proof {
                                lemma_scope_index(self@.scopes.last(), name@.lexeme);
                            }
                            if !self.scopes[n - 1][k].defined {
                                let ghost s0 = self@;
                                let d = report_error(name, &t_self_initializer());
                                self.diagnostics.push(d);
                                proof {
                                    assert(self@ =~~= (RState {
                                        diags: s0.diags.push(
                                            reported_text(s_self_initializer(), name@),
                                        ),
                                        ..s0
                                    }));
                                }
                            }
                        },
                        None => {},
                    }
                }
                self.resolve_local(*id, &name.lexeme);
            },
        }
    }

    /// Resolves a function body under a fresh scope holding its
    /// parameters, the in-function flag set for its duration. Does exactly
    /// what `spec_resolve_function` says.
    #[verifier::loop_isolation(false)]
    fn resolve_function_decl(&mut self, declaration: &FunctionDecl)
        ensures
            final(self)@ == spec_resolve_function(old(self)@, decl_view(*declaration)),
        decreases stmts_size(stmts_view(declaration.body@)), 2int,
    {
        let saved = self.in_function;
        self.in_function = true;
        self.scopes.push(Vec::new());
        let ghost rs1 = self@;
        proof {
            assert(rs1 =~~= (RState {
                scopes: old(self)@.scopes.push(Seq::empty()),
                in_function: true,
                ..old(self)@
            }));
        }
        let ghost pv = crate::ast::tokens_view(declaration.params@);
        let np = declaration.params.len();
        let mut i: usize = 0;
        proof {
            assert(pv.subrange(0, 0) =~= Seq::<TokenV>::empty());
        }
        while i < np
            invariant
                np == declaration.params@.len(),
                pv == crate::ast::tokens_view(declaration.params@),
                pv.len() == np,
                0 <= i <= np,
                self@ == spec_declare_params(rs1, pv.subrange(0, i as int)),
            decreases np - i,
        {
            let ghost before = self@;
            self.declare(&declaration.params[i]);
            self.define_name(&declaration.params[i]);
            proof {
                let sub = pv.subrange(0, i + 1);
                assert(sub.drop_last() =~= pv.subrange(0, i as int));
                assert(sub.last() == declaration.params@[i as int]@);
            }
            i += 1;
        }
        proof {
            assert(pv.subrange(0, np as int) =~= pv);
        }
        self.resolve_statements(&declaration.body);
        if self.scopes.len() > 0 {
            self.scopes.pop();
        }
        self.in_function = saved;
        proof {
            assert(self@ =~~= spec_resolve_function(old(self)@, decl_view(*declaration)));
        }
    }

    /// Resolves one statement. Does exactly what `spec_resolve_stmt` says.
    fn resolve_statement(&mut self, statement: &Stmt)
        ensures
            final(self)@ == spec_resolve_stmt(old(self)@, stmt_view(*statement)),
        decreases stmt_size(stmt_view(*statement)), 1int,
    {
        match statement {
            Stmt::Block(stmts) => {
                self.scopes.push(Vec::new());
                proof {
                    assert(self@ =~~= (RState {
                        scopes: old(self)@.scopes.push(Seq::<ScopeEntryV>::empty()),
                        ..old(self)@
                    }));
                }
                self.resolve_statements(stmts);
                let ghost rs2 = self@;
                if self.scopes.len() > 0 {
                    self.scopes.pop();
                    proof {
                        assert(self@ =~~= (RState { scopes: rs2.scopes.drop_last(), ..rs2 }));
                    }
                }
            },
            Stmt::Expression(e) => {
                self.resolve_expression(e);
            },
            Stmt::FunctionDecl(d) => {
                self.declare(&d.name);
                self.define_name(&d.name);
                proof {
                    assert(stmt_view(*statement) == StmtV::FunctionDecl(decl_view(*d)));
                    assert(decl_view(*d).body == stmts_view(d.body@));
                    assert(stmt_size(StmtV::FunctionDecl(decl_view(*d))) == 1 + stmts_size(
                        decl_view(*d).body,
                    ));
                }
                self.resolve_function_decl(d);
            },
            Stmt::If { condition, then_branch, else_branch } => {
                self.resolve_expression(condition);
                self.resolve_statement(then_branch);
                match else_branch {
                    Some(b) => {
                        self.resolve_statement(b);
                    },
                    None => {},
                }
            },
            Stmt::Print(e) => {
                self.resolve_expression(e);
            },
            Stmt::Return { keyword, value } => {
                if !self.in_function {
                    let ghost s0 = self@;
                    let d = report_error(keyword, &t_return_from_top_level());
                    self.diagnostics.push(d);
                    proof {
                        assert(self@ =~~= (RState {
                            diags: s0.diags.push(
                                reported_text(s_return_from_top_level(), keyword@),
                            ),
                            ..s0
                        }));
                    }
                }
                match value {
                    Some(e) => {
                        self.resolve_expression(e);
                    },
                    None => {},
                }
            },
            Stmt::While { condition, body } => {
                self.resolve_expression(condition);
                self.resolve_statement(body);
            },
            Stmt::VarDecl { name, initializer } => {
                self.declare(name);
                match initializer {
                    Some(e) => {
                        self.resolve_expression(e);
                    },
                    None => {},
                }
                self.define_name(name);
            },
        }
    }

    /// Resolves statements in order. Does exactly what
    /// `spec_resolve_stmts` says.
    #[verifier::loop_isolation(false)]
    pub fn resolve_statements(&mut self, statements: &Vec<Stmt>)
        ensures
            final(self)@ == spec_resolve_stmts(old(self)@, stmts_view(statements@)),
        decreases stmts_size(stmts_view(statements@)), 0int,
    {
        let ghost sv = stmts_view(statements@);
        let ghost rs0 = self@;
        proof {
            lemma_stmts_view(statements@);
            assert(sv.subrange(0, sv.len() as int) =~= sv);
        }
        let n = statements.len();
        let mut i: usize = 0;
        while i < n
            invariant
                n == statements@.len(),
                sv == stmts_view(statements@),
                sv.len() == n,
                forall|j: int| 0 <= j < n ==> sv[j] == stmt_view(statements@[j]),
                0 <= i <= n,
                spec_resolve_stmts(rs0, sv) == spec_resolve_stmts(
                    self@,
                    sv.subrange(i as int, n as int),
                ),
            decreases n - i,
        {
            proof {
                crate::ast::lemma_stmts_size_elem(sv, i as int);
                let sub = sv.subrange(i as int, n as int);
                assert(sub[0] == sv[i as int]);
                assert(sub.subrange(1, sub.len() as int) =~= sv.subrange(i + 1, n as int));
            }
            self.resolve_statement(&statements[i]);
            i += 1;
        }
        proof {
            assert(sv.subrange(n as int, n as int) =~= Seq::<StmtV>::empty());
        }
    }
}

} // verus!
