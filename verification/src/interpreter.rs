//! The tree-walking interpreter.
//!
//! It executes statements against the frame arena, consuming the resolver's
//! side table for local variable accesses, and is proved to return exactly
//! what the definitional semantics (`spec_exec`, `spec_eval`) says: the
//! same final state, the same value or error, the same printed lines.

use vstd::prelude::*;
use std::collections::HashMap;
use crate::ast::{Expr, ExprV, Stmt, FunctionDecl, Literal, expr_view, stmt_view, stmts_view,
    exprs_view, decl_view, expr_size, exprs_size, stmt_size, stmts_size, lemma_exprs_view,
    lemma_stmts_view};
use crate::value::{Value, ValueV, Function, NativeFunction, truthy, val_eq};
use crate::environment::{Environment, FrameV, BindingV, frame_index, frame_find, frame_define,
    env_wf, env_lookup, env_assign, spec_ancestor, opt_value_view, lemma_frame_index};
use crate::error::{RuntimeError, RuntimeErrorV};
use crate::semantics::{State, state_wf, value_wf, opt_value_wf, spec_eval, spec_eval_args,
    spec_exec, spec_exec_stmts, spec_call, spec_block, lit_value, display_value, apply_unary,
    apply_binary, read_variable, write_variable, bind_params, native_result, define_in_current,
    prepend_values};
use crate::number::{number_add, number_sub, number_mul, number_div, number_neg, number_lt,
    number_le, number_eq, format_number};
use crate::token::{bytes_equal, clone_bytes};
use crate::text::{t_nil, t_true_text, t_false_text, t_fn_open, t_gt, t_native_function,
    t_clock, s_clock, append_bytes};

verus! {

broadcast use vstd::std_specs::hash::group_hash_axioms;

/// The error reported when an operand of an arithmetic or comparison
/// operator is not a number.
pub fn error_number() -> (r: RuntimeError)
    ensures
        r@ == RuntimeErrorV::NotNumber,
{
    RuntimeError::NotNumber
}

/// The interpreter: the frame arena, the index of the globals frame and of
/// the current frame, the function declarations executed so far, the
/// pending-return slot, the lines printed so far, the value the `clock`
/// native reports, and the resolver's side table.
pub struct Interpreter {
    pub environment: Environment,
    pub globals: usize,
    pub env: usize,
    pub functions: Vec<FunctionDecl>,
    pub return_value: Option<Value>,
    pub out: Vec<Vec<u8>>,
    pub clock_bits: u64,
    pub locals: HashMap<u64, u32>,
}

impl View for Interpreter {
    type V = State;

    open spec fn view(&self) -> State {
        State {
            frames: self.environment@,
            env: self.env,
            functions: Seq::new(self.functions@.len(), |i: int| decl_view(self.functions@[i])),
            ret: opt_value_view(self.return_value),
            out: Seq::new(self.out@.len(), |i: int| self.out@[i]@),
            clock: self.clock_bits,
            locals: self.locals@,
        }
    }
}

/// The state a fresh interpreter is in: one globals frame holding only the
/// `clock` native, nothing declared, nothing pending, nothing printed.
pub open spec fn initial_state() -> State {
    State {
        frames: seq![
            FrameV {
                enclosing: None,
                entries: seq![
                    BindingV {
                        name: s_clock(),
                        value: Some(
                            ValueV::NativeFunction(
                                crate::value::NativeFunctionV { arity: 0, name: s_clock() },
                            ),
                        ),
                    },
                ],
            },
        ],
        env: 0,
        functions: Seq::empty(),
        ret: None,
        out: Seq::empty(),
        clock: 0,
        locals: Map::empty(),
    }
}

/// A value found in a well-formed state's frame is itself well formed.
pub proof fn lemma_frame_value_wf(s: State, a: int, name: Seq<u8>)
    requires
        state_wf(s),
        0 <= a < s.frames.len(),
    ensures
        match frame_find(s.frames[a].entries, name) {
            Some(Some(v)) => value_wf(v, s.functions.len() as int, s.frames.len() as int),
            _ => true,
        },
{
    lemma_frame_index(s.frames[a].entries, name);
    let k = frame_index(s.frames[a].entries, name);
    if k >= 0 {
        assert(opt_value_wf(
            s.frames[a].entries[k].value,
            s.functions.len() as int,
            s.frames.len() as int,
        ));
    }
}

/// A value found anywhere along a well-formed state's chain is well formed.
pub proof fn lemma_lookup_value_wf(s: State, e: int, name: Seq<u8>)
    requires
        state_wf(s),
    ensures
        match env_lookup(s.frames, e, name) {
            Some(Some(v)) => value_wf(v, s.functions.len() as int, s.frames.len() as int),
            _ => true,
        },
    decreases e,
{
    if 0 <= e < s.frames.len() {
        lemma_frame_value_wf(s, e, name);
        if frame_find(s.frames[e].entries, name) is None {
            match s.frames[e].enclosing {
                Some(p) => {
                    if p < e {
                        lemma_lookup_value_wf(s, p as int, name);
                    }
                },
                None => {},
            }
        }
    }
}

impl Interpreter {
    /// Whether this interpreter is well formed.
    pub open spec fn wf(&self) -> bool {
        &&& state_wf(self@)
        &&& self.globals == 0
    }

    /// A fresh interpreter: globals scope with the native functions bound,
    /// current scope the globals.
    pub fn new() -> (r: Interpreter)
        ensures
            r.wf(),
            r@ == initial_state(),
    {
        let mut environment = Environment::new();
        let clock_name = t_clock();
        let native = Value::NativeFunction(NativeFunction { arity: 0, name: t_clock() });
        environment.define(0, &clock_name, Some(native));
        let r = Interpreter {
            environment,
            globals: 0,
            env: 0,
            functions: Vec::new(),
            return_value: None,
            out: Vec::new(),
            clock_bits: 0,
            locals: HashMap::new(),
        };
        proof {
            assert(r@.frames =~~= initial_state().frames);
            assert(r@.functions =~= initial_state().functions);
            assert(r@.out =~= initial_state().out);
            assert(r@.locals =~= initial_state().locals);
            assert(r@ =~~= initial_state());
        }
        r
    }

    /// Supplies the value the `clock` native reports (as the bits of an
    /// IEEE-754 double): the embedder samples its clock and hands the
    /// reading in.
    pub fn set_clock(&mut self, bits: u64)
        requires
            old(self).wf(),
        ensures
            final(self).wf(),
            final(self)@ == (State { clock: bits, ..old(self)@ }),
    {
        self.clock_bits = bits;
        proof {
            assert(self@ =~~= State { clock: bits, ..old(self)@ });
        }
    }

    /// Records that the expression with identity `id` resolves to the scope
    /// `distance` hops out; the resolver calls this for every local use.
    pub fn resolve(&mut self, id: u64, distance: u32)
        requires
            old(self).wf(),
        ensures
            final(self).wf(),
            final(self)@ == (State {
                locals: old(self)@.locals.insert(id, distance),
                ..old(self)@
            }),
    {
        self.locals.insert(id, distance);
        proof {
            assert(self@ =~~= State {
                locals: old(self)@.locals.insert(id, distance),
                ..old(self)@
            });
        }
    }

    /// Installs the side table a finished resolver produced: from here on
    /// variable accesses go through it.
    pub fn install_resolutions(&mut self, table: HashMap<u64, u32>)
        requires
            old(self).wf(),
        ensures
            final(self).wf(),
            final(self)@ == (State { locals: table@, ..old(self)@ }),
    {
        self.locals = table;
        proof {
            assert(self@ =~~= (State { locals: table@, ..old(self)@ }));
        }
    }

    /// The lines printed so far.
    pub fn output(&self) -> (r: &Vec<Vec<u8>>)
        ensures
            r@.len() == self@.out.len(),
            forall|i: int| 0 <= i < r@.len() ==> r@[i]@ == self@.out[i],
    {
        &self.out
    }

    /// Forgets the lines printed so far.
    pub fn clear_output(&mut self)
        requires
            old(self).wf(),
        ensures
            final(self).wf(),
            final(self)@ == (State { out: Seq::empty(), ..old(self)@ }),
    {
        self.out = Vec::new();
        proof {
            assert(self@ =~~= State { out: Seq::<Seq<u8>>::empty(), ..old(self)@ });
        }
    }

    /// Renders a value for printing.
    pub fn render_value(&self, v: &Value) -> (r: Vec<u8>)
        ensures
            r@ == display_value(self@.functions, v@),
    {
        match v {
            Value::Nil => t_nil(),
            Value::Boolean(b) => if *b {
                t_true_text()
            } else {
                t_false_text()
            },
            Value::Number(n) => format_number(*n),
            Value::Str(s) => clone_bytes(s),
            Value::Function(f) => {
                let mut r = t_fn_open();
                if f.declaration < self.functions.len() {
                    append_bytes(&mut r, &self.functions[f.declaration].name.lexeme);
                }
                let close = t_gt();
                append_bytes(&mut r, &close);
                r
            },
            Value::NativeFunction(_) => t_native_function(),
        }
    }
}


impl Interpreter {
    /// Evaluates an expression: returns exactly the value or error that
    /// `spec_eval` gives it, leaving the interpreter in exactly the state
    /// `spec_eval` leaves.
    #[verifier::loop_isolation(false)]
    pub fn evaluate(&mut self, expression: &Expr, fuel: u64) -> (r: Result<Value, RuntimeError>)
        requires
            old(self).wf(),
        ensures
            final(self).wf(),
            final(self)@.frames.len() >= old(self)@.frames.len(),
            final(self)@.functions.len() >= old(self)@.functions.len(),
            ({
                let (s2, res) = spec_eval(old(self)@, expr_view(*expression), fuel);
                &&& final(self)@ == s2
                &&& (match (r, res) {
                    (Ok(v), Ok(w)) => v@ == w && value_wf(
                        w,
                        s2.functions.len() as int,
                        s2.frames.len() as int,
                    ),
                    (Err(a), Err(b)) => a@ == b,
                    _ => false,
                })
            }),
        decreases fuel, expr_size(expr_view(*expression)), 0int,
    {
        match expression {
            Expr::Literal(l) => {
                let v = match l {
                    Literal::Number(n) => Value::Number(*n),
                    Literal::Str(t) => Value::Str(clone_bytes(t)),
                    Literal::True => Value::Boolean(true),
                    Literal::False => Value::Boolean(false),
                    Literal::Nil => Value::Nil,
                };
                Ok(v)
            },
            Expr::Grouping(inner) => self.evaluate(inner, fuel),
            Expr::Variable { name, id } => {
                let dist: Option<u32> = match self.locals.get(id) {
                    Some(d) => Some(*d),
                    None => None,
                };
                match dist {
                    Some(d) => {
                        let r = self.environment.get_at(self.env, d, &name.lexeme);
                        proof {
                            if r is Ok {
                                crate::environment::lemma_ancestor_bounds(
                                    self@.frames,
                                    self@.env as int,
                                    d as int,
                                );
                                lemma_frame_value_wf(
                                    self@,
                                    spec_ancestor(self@.frames, self@.env as int, d as int),
                                    name@.lexeme,
                                );
                            }
                        }
                        r
                    },
                    None => {
                        let r = self.environment.get(0, &name.lexeme);
                        proof {
                            if r is Ok {
                                lemma_lookup_value_wf(self@, 0, name@.lexeme);
                            }
                        }
                        r
                    },
                }
            },
            Expr::Assign { name, id, value } => {
                let ghost s0 = self@;
                let v = match self.evaluate(value, fuel) {
                    Ok(v) => v,
                    Err(e) => {
                        return Err(e);
                    },
                };
                let ghost s1 = self@;
                let ghost vv = v@;
                let dist: Option<u32> = match self.locals.get(id) {
                    Some(d) => Some(*d),
                    None => None,
                };
                match dist {
                    Some(d) => {
                        let r = self.environment.assign_at(self.env, d, &name.lexeme, v);
                        proof {
                            if r is Ok {
                                let a = spec_ancestor(s1.frames, s1.env as int, d as int);
                                crate::environment::lemma_ancestor_bounds(
                                    s1.frames,
                                    s1.env as int,
                                    d as int,
                                );
                                crate::semantics::lemma_update_frame_wf(
                                    s1,
                                    a,
                                    name@.lexeme,
                                    Some(vv),
                                );
                                assert(self@ =~~= write_variable(s1, name@.lexeme, *id, vv).0);
                            } else {
                                assert(self@ =~~= write_variable(s1, name@.lexeme, *id, vv).0);
                            }
                        }
                        r
                    },
                    None => {
                        let r = self.environment.assign(0, &name.lexeme, v);
                        proof {
                            if r is Ok {
                                crate::semantics::lemma_env_assign_wf(s1, 0, name@.lexeme, vv);
                                assert(self@ =~~= write_variable(s1, name@.lexeme, *id, vv).0);
                            } else {
                                assert(self@ =~~= write_variable(s1, name@.lexeme, *id, vv).0);
                            }
                        }
                        r
                    },
                }
            },
            Expr::Unary { operator, right } => {
                let v = match self.evaluate(right, fuel) {
                    Ok(v) => v,
                    Err(e) => {
                        return Err(e);
                    },
                };
                match operator {
                    crate::token::TokenType::Minus => match v {
                        Value::Number(n) => Ok(Value::Number(number_neg(n))),
                        _ => Err(error_number()),
                    },
                    crate::token::TokenType::Bang => Ok(Value::Boolean(!v.is_truthy())),
                    _ => Err(error_number()),
                }
            },
            Expr::Binary { left, operator, right } => {
                let lv = match self.evaluate(left, fuel) {
                    Ok(v) => v,
                    Err(e) => {
                        return Err(e);
                    },
                };
                let rv = match self.evaluate(right, fuel) {
                    Ok(v) => v,
                    Err(e) => {
                        return Err(e);
                    },
                };
                match operator {
                    crate::token::TokenType::Minus => match (lv, rv) {
                        (Value::Number(a), Value::Number(b)) => Ok(
                            Value::Number(number_sub(a, b)),
                        ),
                        _ => Err(error_number()),
                    },
                    crate::token::TokenType::Slash => match (lv, rv) {
                        (Value::Number(a), Value::Number(b)) => Ok(
                            Value::Number(number_div(a, b)),
                        ),
                        _ => Err(error_number()),
                    },
                    crate::token::TokenType::Star => match (lv, rv) {
                        (Value::Number(a), Value::Number(b)) => Ok(
                            Value::Number(number_mul(a, b)),
                        ),
                        _ => Err(error_number()),
                    },
                    crate::token::TokenType::Plus => match (lv, rv) {
                        (Value::Number(a), Value::Number(b)) => Ok(
                            Value::Number(number_add(a, b)),
                        ),
                        (Value::Str(a), Value::Str(b)) => {
                            let mut c = a;
                            append_bytes(&mut c, &b);
                            Ok(Value::Str(c))
                        },
                        _ => Err(RuntimeError::NotAddable),
                    },
                    crate::token::TokenType::Greater => match (lv, rv) {
                        (Value::Number(a), Value::Number(b)) => Ok(
                            Value::Boolean(number_lt(b, a)),
                        ),
                        _ => Err(error_number()),
                    },
                    crate::token::TokenType::GreaterEqual => match (lv, rv) {
                        (Value::Number(a), Value::Number(b)) => Ok(
                            Value::Boolean(number_le(b, a)),
                        ),
                        _ => Err(error_number()),
                    },
                    crate::token::TokenType::Less => match (lv, rv) {
                        (Value::Number(a), Value::Number(b)) => Ok(
                            Value::Boolean(number_lt(a, b)),
                        ),
                        _ => Err(error_number()),
                    },
                    crate::token::TokenType::LessEqual => match (lv, rv) {
                        (Value::Number(a), Value::Number(b)) => Ok(
                            Value::Boolean(number_le(a, b)),
                        ),
                        _ => Err(error_number()),
                    },
                    crate::token::TokenType::BangEqual => Ok(
                        Value::Boolean(!lv.equals(&rv)),
                    ),
                    crate::token::TokenType::EqualEqual => Ok(Value::Boolean(lv.equals(&rv))),
                    _ => Err(error_number()),
                }
            },
            Expr::Logical { left, operator, right } => {
                let lv = match self.evaluate(left, fuel) {
                    Ok(v) => v,
                    Err(e) => {
                        return Err(e);
                    },
                };
                let take_left = match operator {
                    crate::token::TokenType::Or => lv.is_truthy(),
                    crate::token::TokenType::And => !lv.is_truthy(),
                    _ => false,
                };
                if take_left {
                    Ok(lv)
                } else {
                    self.evaluate(right, fuel)
                }
            },
            Expr::Call { callee, arguments } => {
                let ghost s0 = self@;
                let c = match self.evaluate(callee, fuel) {
                    Ok(v) => v,
                    Err(e) => {
                        return Err(e);
                    },
                };
                let ghost s1 = self@;
                let ghost av = exprs_view(arguments@);
                proof {
                    lemma_exprs_view(arguments@);
                }
                let n = arguments.len();
                let mut vals: Vec<Value> = Vec::new();
                let mut i: usize = 0;
                proof {
                    assert(exprs_size(av) < expr_size(expr_view(*expression)));
                    assert(av.subrange(0, n as int) =~= av);
                    assert(crate::semantics::values_view(vals@) =~= Seq::<ValueV>::empty());
                    assert(prepend_values(
                        crate::semantics::values_view(vals@),
                        spec_eval_args(self@, av.subrange(0, n as int), fuel),
                    ) =~~= spec_eval_args(s1, av, fuel)) by {
                        let out = spec_eval_args(s1, av.subrange(0, n as int), fuel);
                        match out.1 {
                            Ok(vs) => {
                                assert(Seq::<ValueV>::empty() + vs =~= vs);
                            },
                            Err(_) => {},
                        }
                    }
                }
                while i < n
                    invariant
                        self.wf(),
                        n == arguments@.len(),
                        av == exprs_view(arguments@),
                        av.len() == n,
                        forall|j: int| 0 <= j < n ==> av[j] == expr_view(arguments@[j]),
                        0 <= i <= n,
                        vals@.len() == i,
                        self@.frames.len() >= s1.frames.len(),
                        self@.functions.len() >= s1.functions.len(),
                        forall|j: int|
                            0 <= j < i ==> value_wf(
                                #[trigger] vals@[j]@,
                                self@.functions.len() as int,
                                self@.frames.len() as int,
                            ),
                        exprs_size(av) < expr_size(expr_view(*expression)),
                        prepend_values(
                            crate::semantics::values_view(vals@),
                            spec_eval_args(self@, av.subrange(i as int, n as int), fuel),
                        ) == spec_eval_args(s1, av, fuel),
                    decreases n - i,
                {
                    let ghost scur = self@;
                    let ghost prefix = crate::semantics::values_view(vals@);
                    proof {
                        crate::ast::lemma_exprs_size_elem(av, i as int);
                        assert(expr_size(av[i as int]) < expr_size(expr_view(*expression)));
                    }
                    let v = match self.evaluate(&arguments[i], fuel) {
                        Ok(v) => v,
                        Err(e) => {
                            proof {
                                let sub = av.subrange(i as int, n as int);
                                assert(sub[0] == av[i as int]);
                                assert(s0 == old(self)@);
                                assert(self@.frames.len() >= scur.frames.len());
                                assert(scur.frames.len() >= s1.frames.len());
                                assert(s1.frames.len() >= s0.frames.len());
                                assert(self@.functions.len() >= s0.functions.len());
                                let (sx, rx) = spec_eval(scur, sub[0], fuel);
                                assert(self@ == sx);
                                assert(rx is Err);
                                let b = rx->Err_0;
                                assert(spec_eval_args(scur, sub, fuel) == (
                                    sx,
                                    Err::<Seq<ValueV>, RuntimeErrorV>(b),
                                ));
                                assert(spec_eval_args(s1, av, fuel) == (
                                    sx,
                                    Err::<Seq<ValueV>, RuntimeErrorV>(b),
                                ));
                                let (sy, ry) = spec_eval(s0, expr_view(*expression), fuel);
                                assert(sy == sx);
                                assert(ry == Err::<ValueV, RuntimeErrorV>(b));
                            }
                            return Err(e);
                        },
                    };
                    vals.push(v);
                    i += 1;
                    proof {
                        let sub = av.subrange(i - 1, n as int);
                        assert(sub[0] == av[i - 1]);
                        assert(sub.subrange(1, sub.len() as int) =~= av.subrange(
                            i as int,
                            n as int,
                        ));
                        assert(crate::semantics::values_view(vals@) =~= prefix.push(v@));
                        let out = spec_eval_args(self@, av.subrange(i as int, n as int), fuel);
                        match out.1 {
                            Ok(vs) => {
                                assert(prefix.push(v@) + vs =~= prefix + (seq![v@] + vs));
                            },
                            Err(_) => {},
                        }
                    }
                }
                proof {
                    assert(av.subrange(n as int, n as int) =~= Seq::<ExprV>::empty());
                    let out = spec_eval_args(self@, av.subrange(n as int, n as int), fuel);
                    assert(out.1 == Ok::<Seq<ValueV>, RuntimeErrorV>(Seq::<ValueV>::empty()));
                    assert(crate::semantics::values_view(vals@) + Seq::<ValueV>::empty()
                        =~= crate::semantics::values_view(vals@));
                    assert(spec_eval_args(s1, av, fuel) == (
                        self@,
                        Ok::<Seq<ValueV>, RuntimeErrorV>(crate::semantics::values_view(vals@)),
                    ));
                }
                match c {
                    Value::Function(f) => {
                        proof {
                            crate::semantics::lemma_value_wf_mono(
                                ValueV::Function(f),
                                s1.functions.len() as int,
                                s1.frames.len() as int,
                                self@.functions.len() as int,
                                self@.frames.len() as int,
                            );
                        }
                        let decl = self.functions[f.declaration].duplicate();
                        proof {
                            assert(decl@ == self@.functions[f.declaration as int]);
                        }
                        if vals.len() != decl.params.len() {
                            return Err(
                                RuntimeError::Arity {
                                    expected: decl.params.len(),
                                    got: vals.len(),
                                },
                            );
                        }
                        if fuel == 0 {
                            return Err(RuntimeError::StepLimit);
                        }
                        self.call_function(decl, f.closure, vals, fuel - 1)
                    },
                    Value::NativeFunction(nf) => {
                        if vals.len() != nf.arity as usize {
                            Err(
                                RuntimeError::Arity {
                                    expected: nf.arity as usize,
                                    got: vals.len(),
                                },
                            )
                        } else {
                            let clock_name = t_clock();
                            if bytes_equal(nf.name.as_slice(), clock_name.as_slice()) {
                                Ok(Value::Number(self.clock_bits))
                            } else {
                                Err(RuntimeError::NotCallable)
                            }
                        }
                    },
                    _ => Err(RuntimeError::NotCallable),
                }
            },
        }
    }

    /// Calls a user-defined function: a fresh frame enclosing the closure,
    /// parameters bound to arguments, the body run, the pending return
    /// consumed. Returns exactly what `spec_call` says.
    #[verifier::loop_isolation(false)]
    fn call_function(
        &mut self,
        decl: FunctionDecl,
        closure: usize,
        args: Vec<Value>,
        fuel: u64,
    ) -> (r: Result<Value, RuntimeError>)
        requires
            old(self).wf(),
            closure < old(self)@.frames.len(),
            args@.len() == decl.params@.len(),
            forall|j: int|
                0 <= j < args@.len() ==> value_wf(
                    #[trigger] args@[j]@,
                    old(self)@.functions.len() as int,
                    old(self)@.frames.len() as int,
                ),
        ensures
            final(self).wf(),
            final(self)@.frames.len() >= old(self)@.frames.len(),
            final(self)@.functions.len() >= old(self)@.functions.len(),
            ({
                let (s2, res) = spec_call(
                    old(self)@,
                    decl@,
                    closure,
                    crate::semantics::values_view(args@),
                    fuel,
                );
                &&& final(self)@ == s2
                &&& (match (r, res) {
                    (Ok(v), Ok(w)) => v@ == w && value_wf(
                        w,
                        s2.functions.len() as int,
                        s2.frames.len() as int,
                    ),
                    (Err(a), Err(b)) => a@ == b,
                    _ => false,
                })
            }),
        decreases fuel, stmts_size(stmts_view(decl.body@)), 1int,
    {
        let ghost s0 = self@;
        let new_env = self.environment.with_enclosing(closure);
        let n = decl.params.len();
        let mut i: usize = 0;
        proof {
            assert(decl@.params.subrange(0, 0) =~= Seq::<crate::token::TokenV>::empty());
            assert(crate::semantics::values_view(args@).subrange(0, 0)
                =~= Seq::<ValueV>::empty());
            assert(bind_params(
                decl@.params.subrange(0, 0),
                crate::semantics::values_view(args@).subrange(0, 0),
            ) =~= Seq::<BindingV>::empty());
            assert(self@.frames =~~= s0.frames.push(
                FrameV {
                    enclosing: Some(closure),
                    entries: bind_params(
                        decl@.params.subrange(0, 0),
                        crate::semantics::values_view(args@).subrange(0, 0),
                    ),
                },
            ));
            assert(state_wf(self@)) by {
                assert(forall|k: int|
                    0 <= k < s0.frames.len() ==> self@.frames[k] == s0.frames[k]);
            }
        }
        while i < n
            invariant
                self.wf(),
                n == decl.params@.len() == args@.len(),
                decl@.params.len() == n,
                crate::semantics::values_view(args@).len() == n,
                0 <= i <= n,
                closure < s0.frames.len(),
                new_env == s0.frames.len(),
                self@.functions == s0.functions,
                self@.env == s0.env,
                self@.ret == s0.ret,
                self@.out == s0.out,
                self@.clock == s0.clock,
                self@.locals == s0.locals,
                forall|j: int|
                    0 <= j < n ==> value_wf(
                        #[trigger] args@[j]@,
                        s0.functions.len() as int,
                        s0.frames.len() as int,
                    ),
                self@.frames == s0.frames.push(
                    FrameV {
                        enclosing: Some(closure),
                        entries: bind_params(
                            decl@.params.subrange(0, i as int),
                            crate::semantics::values_view(args@).subrange(0, i as int),
                        ),
                    },
                ),
            decreases n - i,
        {
            let ghost entries0 = self@.frames[new_env as int].entries;
            let v = args[i].duplicate();
            self.environment.define(new_env, &decl.params[i].lexeme, Some(v));
            proof {
                let pv = decl@.params.subrange(0, i + 1);
                let vv = crate::semantics::values_view(args@).subrange(0, i + 1);
                assert(pv.drop_last() =~= decl@.params.subrange(0, i as int));
                assert(vv.drop_last() =~= crate::semantics::values_view(args@).subrange(
                    0,
                    i as int,
                ));
                assert(pv.last() == decl@.params[i as int]);
                assert(decl@.params[i as int] == decl.params@[i as int]@);
                assert(vv.last() == args@[i as int]@);
                assert(bind_params(pv, vv) == frame_define(
                    entries0,
                    decl.params@[i as int]@.lexeme,
                    Some(args@[i as int]@),
                ));
                assert(self@.frames =~~= s0.frames.push(
                    FrameV { enclosing: Some(closure), entries: bind_params(pv, vv) },
                ));
                assert(state_wf(self@)) by {
                    crate::semantics::lemma_value_wf_mono(
                        args@[i as int]@,
                        s0.functions.len() as int,
                        s0.frames.len() as int,
                        self@.functions.len() as int,
                        self@.frames.len() as int,
                    );
                    let sprev = State {
                        frames: s0.frames.push(
                            FrameV {
                                enclosing: Some(closure),
                                entries: bind_params(
                                    decl@.params.subrange(0, i as int),
                                    crate::semantics::values_view(args@).subrange(0, i as int),
                                ),
                            },
                        ),
                        ..s0
                    };
                    crate::semantics::lemma_update_frame_wf(
                        sprev,
                        new_env as int,
                        decl.params@[i as int]@.lexeme,
                        Some(args@[i as int]@),
                    );
                    assert(self@ =~~= State {
                        frames: sprev.frames.update(
                            new_env as int,
                            FrameV {
                                enclosing: sprev.frames[new_env as int].enclosing,
                                entries: frame_define(
                                    sprev.frames[new_env as int].entries,
                                    decl.params@[i as int]@.lexeme,
                                    Some(args@[i as int]@),
                                ),
                            },
                        ),
                        ..sprev
                    });
                }
            }
            i += 1;
        }
        proof {
            assert(decl@.params.subrange(0, n as int) =~= decl@.params);
            assert(crate::semantics::values_view(args@).subrange(0, n as int)
                =~= crate::semantics::values_view(args@));
        }
        let saved = crate::value::duplicate_opt_value(&self.return_value);
        let ghost ssaved = opt_value_view(saved);
        proof {
            assert(ssaved == s0.ret);
        }
        let ghost s1 = self@;
        match self.execute_block(&decl.body, new_env, fuel) {
            Ok(()) => {
                let produced = crate::value::duplicate_opt_value(&self.return_value);
                self.return_value = saved;
                let result = match produced {
                    Some(v) => v,
                    None => Value::Nil,
                };
                proof {
                    let (s2, res) = spec_call(
                        s0,
                        decl@,
                        closure,
                        crate::semantics::values_view(args@),
                        fuel,
                    );
                    assert(self@ =~~= s2);
                    assert(state_wf(self@)) by {
                        crate::semantics::lemma_value_wf_mono(
                            match ssaved {
                                Some(v) => v,
                                None => ValueV::Nil,
                            },
                            s0.functions.len() as int,
                            s0.frames.len() as int,
                            self@.functions.len() as int,
                            self@.frames.len() as int,
                        );
                    }
                }
                Ok(result)
            },
            Err(e) => {
                proof {
                    let (s2, res) = spec_call(
                        s0,
                        decl@,
                        closure,
                        crate::semantics::values_view(args@),
                        fuel,
                    );
                    assert(self@ =~~= s2);
                }
                Err(e)
            },
        }
    }

    /// Executes a statement list under the frame `block_env`, restoring the
    /// previous current frame on every path. Returns exactly what
    /// `spec_block` says.
    #[verifier::loop_isolation(false)]
    pub fn execute_block(&mut self, statements: &Vec<Stmt>, block_env: usize, fuel: u64) -> (r:
        Result<(), RuntimeError>)
        requires
            old(self).wf(),
            block_env < old(self)@.frames.len(),
        ensures
            final(self).wf(),
            final(self)@.frames.len() >= old(self)@.frames.len(),
            final(self)@.functions.len() >= old(self)@.functions.len(),
            ({
                let (s2, res) = spec_block(old(self)@, stmts_view(statements@), block_env, fuel);
                &&& final(self)@ == s2
                &&& (match (r, res) {
                    (Ok(()), Ok(())) => true,
                    (Err(a), Err(b)) => a@ == b,
                    _ => false,
                })
            }),
        decreases fuel, stmts_size(stmts_view(statements@)), 0int,
    {
        let prev = self.env;
        self.env = block_env;
        let ghost sv = stmts_view(statements@);
        let ghost s1 = self@;
        proof {
            lemma_stmts_view(statements@);
            assert(s1 =~~= State { env: block_env, ..old(self)@ });
        }
        let n = statements.len();
        let mut i: usize = 0;
        proof {
            assert(sv.subrange(0, n as int) =~= sv);
        }
        while i < n
            invariant
                self.wf(),
                n == statements@.len(),
                sv == stmts_view(statements@),
                sv.len() == n,
                forall|j: int| 0 <= j < n ==> sv[j] == stmt_view(statements@[j]),
                0 <= i <= n,
                self@.frames.len() >= s1.frames.len(),
                self@.functions.len() >= s1.functions.len(),
                spec_exec_stmts(s1, sv, fuel) == spec_exec_stmts(
                    self@,
                    sv.subrange(i as int, n as int),
                    fuel,
                ),
            decreases n - i,
        {
            let ghost scur = self@;
            proof {
                crate::ast::lemma_stmts_size_elem(sv, i as int);
            }
            match self.execute(&statements[i], fuel) {
                Ok(()) => {
                    proof {
                        let sub = sv.subrange(i as int, n as int);
                        assert(sub[0] == sv[i as int]);
                        assert(sub.subrange(1, sub.len() as int) =~= sv.subrange(
                            i + 1,
                            n as int,
                        ));
                    }
                    i += 1;
                },
                Err(e) => {
                    let ghost serr = self@;
                    proof {
                        let sub = sv.subrange(i as int, n as int);
                        assert(sub.len() > 0);
                        assert(sub[0] == sv[i as int]);
                        let (sx, rx) = spec_exec(scur, sv[i as int], fuel);
                        assert(serr == sx);
                        assert(rx is Err);
                        assert(spec_exec_stmts(scur, sub, fuel) == (sx, rx));
                        assert(spec_exec_stmts(s1, sv, fuel) == (sx, rx));
                    }
                    self.env = prev;
                    proof {
                        let (sx, rx) = spec_exec_stmts(s1, sv, fuel);
                        assert(prev == old(self)@.env);
                        let (s2, res) = spec_block(old(self)@, sv, block_env, fuel);
                        assert(s2 == (State { env: old(self)@.env, ..sx }));
                        assert(self@ =~~= (State { env: prev, ..serr }));
                        assert(self@ =~~= s2);
                    }
                    return Err(e);
                },
            }
        }
        proof {
            assert(sv.subrange(n as int, n as int) =~= Seq::<crate::ast::StmtV>::empty());
        }
        let ghost send = self@;
        self.env = prev;
        proof {
            let (sx, rx) = spec_exec_stmts(s1, sv, fuel);
            assert(send == sx);
            assert(rx is Ok);
            let (s2, res) = spec_block(old(self)@, sv, block_env, fuel);
            assert(self@ =~~= (State { env: prev, ..send }));
            assert(self@ =~~= s2);
        }
        Ok(())
    }

    /// Executes one statement: does exactly what `spec_exec` says. While a
    /// return is pending, every statement is a no-op.
    pub fn execute(&mut self, statement: &Stmt, fuel: u64) -> (r: Result<(), RuntimeError>)
        requires
            old(self).wf(),
        ensures
            final(self).wf(),
            final(self)@.frames.len() >= old(self)@.frames.len(),
            final(self)@.functions.len() >= old(self)@.functions.len(),
            ({
                let (s2, res) = spec_exec(old(self)@, stmt_view(*statement), fuel);
                &&& final(self)@ == s2
                &&& (match (r, res) {
                    (Ok(()), Ok(())) => true,
                    (Err(a), Err(b)) => a@ == b,
                    _ => false,
                })
            }),
        decreases fuel, stmt_size(stmt_view(*statement)), 1int,
    {
        if self.return_value.is_some() {
            return Ok(());
        }
        match statement {
            Stmt::Expression(e) => {
                match self.evaluate(e, fuel) {
                    Ok(_) => Ok(()),
                    Err(er) => Err(er),
                }
            },
            Stmt::Print(e) => {
                let ghost s0 = self@;
                match self.evaluate(e, fuel) {
                    Ok(v) => {
                        let line = self.render_value(&v);
                        self.out.push(line);
                        proof {
                            let (s1, r1) = spec_eval(s0, expr_view(*e), fuel);
                            assert(self@ =~~= State {
                                out: s1.out.push(crate::semantics::display_value(
                                    s1.functions,
                                    v@,
                                )),
                                ..s1
                            });
                        }
                        Ok(())
                    },
                    Err(er) => Err(er),
                }
            },
            Stmt::VarDecl { name, initializer } => {
                let v: Option<Value> = match initializer {
                    Some(init) => match self.evaluate(init, fuel) {
                        Ok(v) => Some(v),
                        Err(er) => {
                            return Err(er);
                        },
                    },
                    None => None,
                };
                let ghost s1 = self@;
                let ghost vv = opt_value_view(v);
                self.environment.define(self.env, &name.lexeme, v);
                proof {
                    crate::semantics::lemma_update_frame_wf(s1, s1.env as int, name@.lexeme, vv);
                    assert(self@ =~~= define_in_current(s1, name@.lexeme, vv));
                }
                Ok(())
            },
            Stmt::FunctionDecl(decl) => {
                let ghost s0 = self@;
                let f = Function { declaration: self.functions.len(), closure: self.env };
                self.functions.push(decl.duplicate());
                let ghost s1 = self@;
                proof {
                    assert(s1.functions =~= s0.functions.push(decl_view(*decl)));
                    assert(s1 =~~= State {
                        functions: s0.functions.push(decl_view(*decl)),
                        ..s0
                    });
                    assert(state_wf(s1)) by {
                        assert(forall|i: int, j: int|
                            0 <= i < s1.frames.len() && 0 <= j < s1.frames[i].entries.len()
                                ==> s1.frames[i].entries[j] == s0.frames[i].entries[j]);
                    }
                }
                self.environment.define(self.env, &decl.name.lexeme, Some(Value::Function(f)));
                proof {
                    crate::semantics::lemma_update_frame_wf(
                        s1,
                        s1.env as int,
                        decl.name@.lexeme,
                        Some(ValueV::Function(f)),
                    );
                    assert(self@ =~~= define_in_current(
                        s1,
                        decl.name@.lexeme,
                        Some(ValueV::Function(f)),
                    ));
                }
                Ok(())
            },
            Stmt::If { condition, then_branch, else_branch } => {
                let c = match self.evaluate(condition, fuel) {
                    Ok(v) => v,
                    Err(er) => {
                        return Err(er);
                    },
                };
                if c.is_truthy() {
                    self.execute(then_branch, fuel)
                } else {
                    match else_branch {
                        Some(b) => self.execute(b, fuel),
                        None => Ok(()),
                    }
                }
            },
            Stmt::While { condition, body } => {
                let c = match self.evaluate(condition, fuel) {
                    Ok(v) => v,
                    Err(er) => {
                        return Err(er);
                    },
                };
                if !c.is_truthy() {
                    return Ok(());
                }
                match self.execute(body, fuel) {
                    Ok(()) => {},
                    Err(er) => {
                        return Err(er);
                    },
                }
                if fuel == 0 {
                    return Err(RuntimeError::StepLimit);
                }
                self.execute(statement, fuel - 1)
            },
            Stmt::Return { keyword: _, value } => {
                match value {
                    Some(e) => {
                        let v = match self.evaluate(e, fuel) {
                            Ok(v) => v,
                            Err(er) => {
                                return Err(er);
                            },
                        };
                        let ghost s1 = self@;
                        self.return_value = Some(v);
                        proof {
                            assert(self@ =~~= State { ret: Some(v@), ..s1 });
                        }
                        Ok(())
                    },
                    None => {
                        let ghost s1 = self@;
                        self.return_value = Some(Value::Nil);
                        proof {
                            assert(self@ =~~= State { ret: Some(ValueV::Nil), ..s1 });
                        }
                        Ok(())
                    },
                }
            },
            Stmt::Block(stmts) => {
                let ghost s0 = self@;
                let new_env = self.environment.with_enclosing(self.env);
                proof {
                    assert(state_wf(self@)) by {
                        assert(forall|k: int|
                            0 <= k < s0.frames.len() ==> self@.frames[k] == s0.frames[k]);
                    }
                }
                let r = self.execute_block(stmts, new_env, fuel);
                proof {
                    let (s2, res) = spec_exec(s0, stmt_view(*statement), fuel);
                    assert(self@ =~~= s2);
                }
                r
            },
        }
    }

    /// Runs a program: executes each statement in order and stops at the
    /// first error. Returns exactly what `spec_exec_stmts` says.
    #[verifier::loop_isolation(false)]
    pub fn interpret(&mut self, statements: &Vec<Stmt>, fuel: u64) -> (r: Result<
        (),
        RuntimeError,
    >)
        requires
            old(self).wf(),
        ensures
            final(self).wf(),
            ({
                let (s2, res) = spec_exec_stmts(old(self)@, stmts_view(statements@), fuel);
                &&& final(self)@ == s2
                &&& (match (r, res) {
                    (Ok(()), Ok(())) => true,
                    (Err(a), Err(b)) => a@ == b,
                    _ => false,
                })
            }),
    {
        let ghost sv = stmts_view(statements@);
        let ghost s0 = self@;
        proof {
            lemma_stmts_view(statements@);
        }
        let n = statements.len();
        let mut i: usize = 0;
        proof {
            assert(sv.subrange(0, n as int) =~= sv);
        }
        while i < n
            invariant
                self.wf(),
                n == statements@.len(),
                sv == stmts_view(statements@),
                sv.len() == n,
                forall|j: int| 0 <= j < n ==> sv[j] == stmt_view(statements@[j]),
                0 <= i <= n,
                spec_exec_stmts(s0, sv, fuel) == spec_exec_stmts(
                    self@,
                    sv.subrange(i as int, n as int),
                    fuel,
                ),
            decreases n - i,
        {
            let ghost scur = self@;
            match self.execute(&statements[i], fuel) {
                Ok(()) => {
                    proof {
                        let sub = sv.subrange(i as int, n as int);
                        assert(sub[0] == sv[i as int]);
                        assert(sub.subrange(1, sub.len() as int) =~= sv.subrange(
                            i + 1,
                            n as int,
                        ));
                    }
                    i += 1;
                },
                Err(e) => {
                    proof {
                        let sub = sv.subrange(i as int, n as int);
                        assert(sub.len() > 0);
                        assert(sub[0] == sv[i as int]);
                        let (sx, rx) = spec_exec(scur, sv[i as int], fuel);
                        assert(self@ == sx);
                        assert(rx is Err);
                        let b = rx->Err_0;
                        assert(spec_exec_stmts(scur, sub, fuel) == (
                            sx,
                            Err::<(), RuntimeErrorV>(b),
                        ));
                        assert(spec_exec_stmts(s0, sv, fuel) == (
                            sx,
                            Err::<(), RuntimeErrorV>(b),
                        ));
                    }
                    return Err(e);
                },
            }
        }
        proof {
            assert(sv.subrange(n as int, n as int) =~= Seq::<crate::ast::StmtV>::empty());
        }
        Ok(())
    }
}

} // verus!
