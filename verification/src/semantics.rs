//! The meaning of programs: a definitional interpreter at the
//! specification level.
//!
//! `spec_exec` and `spec_eval` define, for every program state, statement
//! and expression, what executing it yields: the next state and either a
//! value (or unit) or a runtime error. The executable interpreter is proved
//! to return exactly what these functions say. Since programs of the
//! language need not terminate, both take a step budget: entering a
//! function call or re-entering a loop body costs one step, and a spent
//! budget surfaces as the `StepLimit` error.

use vstd::prelude::*;
use crate::ast::{ExprV, StmtV, LiteralV, FunctionDeclV, expr_size, exprs_size, stmt_size, stmts_size};
use crate::value::{ValueV, Function, truthy, val_eq};
use crate::error::RuntimeErrorV;
use crate::environment::{
    FrameV, BindingV, frame_index, frame_find, frame_define, env_wf, env_lookup, env_assign,
    spec_ancestor,
};
use crate::number::{num_eq_bits, num_lt_bits, num_le_bits, neg_bits, sum_bits, diff_bits,
    prod_bits, quot_bits, number_text};
use crate::token::{TokenTypeV, TokenV};
use crate::text::{s_nil, s_true_text, s_false_text, s_fn_open, s_gt, s_native_function, s_clock};

verus! {

/// One program state: the frame arena, the current frame, the declarations
/// executed so far, the pending return slot, the lines printed so far, the
/// value the `clock` native reports, and the resolver's side table.
#[verifier::ext_equal]
pub ghost struct State {
    pub frames: Seq<FrameV>,
    pub env: usize,
    pub functions: Seq<FunctionDeclV>,
    pub ret: Option<ValueV>,
    pub out: Seq<Seq<u8>>,
    pub clock: u64,
    pub locals: Map<u64, u32>,
}

/// A function value index is meaningful and its closure frame exists.
pub open spec fn value_wf(v: ValueV, nfuns: int, nframes: int) -> bool {
    match v {
        ValueV::Function(f) => f.declaration < nfuns && f.closure < nframes,
        _ => true,
    }
}

/// Well-formedness of an optional (possibly uninitialized) slot.
pub open spec fn opt_value_wf(v: Option<ValueV>, nfuns: int, nframes: int) -> bool {
    match v {
        Some(x) => value_wf(x, nfuns, nframes),
        None => true,
    }
}

/// Well-formedness of a state: the arena is acyclic with a globals frame,
/// the current frame exists, and every value stored anywhere points into
/// the arenas.
pub open spec fn state_wf(s: State) -> bool {
    &&& env_wf(s.frames)
    &&& (s.env as int) < s.frames.len()
    &&& forall|i: int, j: int|
        0 <= i < s.frames.len() && 0 <= j < s.frames[i].entries.len() ==> opt_value_wf(
            #[trigger] s.frames[i].entries[j].value,
            s.functions.len() as int,
            s.frames.len() as int,
        )
    &&& opt_value_wf(s.ret, s.functions.len() as int, s.frames.len() as int)
}

/// The value a literal denotes.
pub open spec fn lit_value(l: LiteralV) -> ValueV {
    match l {
        LiteralV::Number(n) => ValueV::Number(n),
        LiteralV::Str(s) => ValueV::Str(s),
        LiteralV::True => ValueV::Boolean(true),
        LiteralV::False => ValueV::Boolean(false),
        LiteralV::Nil => ValueV::Nil,
    }
}

/// The display form of a value. Function values show their declared name.
pub open spec fn display_value(functions: Seq<FunctionDeclV>, v: ValueV) -> Seq<u8> {
    match v {
        ValueV::Nil => s_nil(),
        ValueV::Boolean(b) => if b {
            s_true_text()
        } else {
            s_false_text()
        },
        ValueV::Number(n) => number_text(n),
        ValueV::Str(s) => s,
        ValueV::Function(f) => s_fn_open() + (if f.declaration < functions.len() {
            functions[f.declaration as int].name.lexeme
        } else {
            Seq::empty()
        }) + s_gt(),
        ValueV::NativeFunction(_) => s_native_function(),
    }
}

/// What a unary operator yields on an evaluated operand. Unary `-` wants a
/// number; `!` negates truthiness. (The parser only emits `-` and `!`; any
/// other kind falls to the number error.)
pub open spec fn apply_unary(op: TokenTypeV, v: ValueV) -> Result<ValueV, RuntimeErrorV> {
    match op {
        TokenTypeV::Minus => match v {
            ValueV::Number(n) => Ok(ValueV::Number(neg_bits(n))),
            _ => Err(RuntimeErrorV::NotNumber),
        },
        TokenTypeV::Bang => Ok(ValueV::Boolean(!truthy(v))),
        _ => Err(RuntimeErrorV::NotNumber),
    }
}

/// What a binary operator yields on two evaluated operands. Arithmetic and
/// comparison want numbers; `+` also concatenates two strings; equality is
/// total. (The parser only emits these kinds; any other falls to the
/// number error.)
pub open spec fn apply_binary(op: TokenTypeV, l: ValueV, r: ValueV) -> Result<
    ValueV,
    RuntimeErrorV,
> {
    match op {
        TokenTypeV::Minus => match (l, r) {
            (ValueV::Number(a), ValueV::Number(b)) => Ok(ValueV::Number(diff_bits(a, b))),
            _ => Err(RuntimeErrorV::NotNumber),
        },
        TokenTypeV::Slash => match (l, r) {
            (ValueV::Number(a), ValueV::Number(b)) => Ok(ValueV::Number(quot_bits(a, b))),
            _ => Err(RuntimeErrorV::NotNumber),
        },
        TokenTypeV::Star => match (l, r) {
            (ValueV::Number(a), ValueV::Number(b)) => Ok(ValueV::Number(prod_bits(a, b))),
            _ => Err(RuntimeErrorV::NotNumber),
        },
        TokenTypeV::Plus => match (l, r) {
            (ValueV::Number(a), ValueV::Number(b)) => Ok(ValueV::Number(sum_bits(a, b))),
            (ValueV::Str(a), ValueV::Str(b)) => Ok(ValueV::Str(a + b)),
            _ => Err(RuntimeErrorV::NotAddable),
        },
        TokenTypeV::Greater => match (l, r) {
            (ValueV::Number(a), ValueV::Number(b)) => Ok(ValueV::Boolean(num_lt_bits(b, a))),
            _ => Err(RuntimeErrorV::NotNumber),
        },
        TokenTypeV::GreaterEqual => match (l, r) {
            (ValueV::Number(a), ValueV::Number(b)) => Ok(ValueV::Boolean(num_le_bits(b, a))),
            _ => Err(RuntimeErrorV::NotNumber),
        },
        TokenTypeV::Less => match (l, r) {
            (ValueV::Number(a), ValueV::Number(b)) => Ok(ValueV::Boolean(num_lt_bits(a, b))),
            _ => Err(RuntimeErrorV::NotNumber),
        },
        TokenTypeV::LessEqual => match (l, r) {
            (ValueV::Number(a), ValueV::Number(b)) => Ok(ValueV::Boolean(num_le_bits(a, b))),
            _ => Err(RuntimeErrorV::NotNumber),
        },
        TokenTypeV::BangEqual => Ok(ValueV::Boolean(!val_eq(l, r))),
        TokenTypeV::EqualEqual => Ok(ValueV::Boolean(val_eq(l, r))),
        _ => Err(RuntimeErrorV::NotNumber),
    }
}

/// Reading a variable: through the side table if the use was resolved to a
/// local (exactly at the frame the recorded distance names), otherwise in
/// the globals frame.
pub open spec fn read_variable(s: State, name: Seq<u8>, id: u64) -> Result<
    ValueV,
    RuntimeErrorV,
> {
    if s.locals.contains_key(id) {
        let a = spec_ancestor(s.frames, s.env as int, s.locals[id] as int);
        if a >= 0 {
            match frame_find(s.frames[a].entries, name) {
                Some(Some(v)) => Ok(v),
                Some(None) => Err(RuntimeErrorV::Uninitialized(name)),
                None => Err(RuntimeErrorV::Undefined(name)),
            }
        } else {
            Err(RuntimeErrorV::Undefined(name))
        }
    } else {
        match env_lookup(s.frames, 0, name) {
            Some(Some(v)) => Ok(v),
            Some(None) => Err(RuntimeErrorV::Uninitialized(name)),
            None => Err(RuntimeErrorV::Undefined(name)),
        }
    }
}

/// Writing a variable: through the side table if the use was resolved to a
/// local, otherwise in the globals frame. Unbound names are an error; the
/// state is then unchanged.
pub open spec fn write_variable(s: State, name: Seq<u8>, id: u64, v: ValueV) -> (State, Result<
    ValueV,
    RuntimeErrorV,
>) {
    if s.locals.contains_key(id) {
        let a = spec_ancestor(s.frames, s.env as int, s.locals[id] as int);
        if a >= 0 && frame_index(s.frames[a].entries, name) >= 0 {
            let frames2 = s.frames.update(
                a,
                FrameV {
                    enclosing: s.frames[a].enclosing,
                    entries: frame_define(s.frames[a].entries, name, Some(v)),
                },
            );
            (State { frames: frames2, ..s }, Ok(v))
        } else {
            (s, Err(RuntimeErrorV::Undefined(name)))
        }
    } else {
        match env_assign(s.frames, 0, name, v) {
            Some(frames2) => (State { frames: frames2, ..s }, Ok(v)),
            None => (s, Err(RuntimeErrorV::Undefined(name))),
        }
    }
}

/// The parameter frame of a call: each parameter bound, left to right, to
/// its argument.
pub open spec fn bind_params(params: Seq<TokenV>, args: Seq<ValueV>) -> Seq<BindingV>
    decreases params.len(),
{
    if params.len() == 0 {
        Seq::empty()
    } else {
        frame_define(
            bind_params(
                params.drop_last(),
                if args.len() == 0 {
                    args
                } else {
                    args.drop_last()
                },
            ),
            params.last().lexeme,
            if args.len() == 0 {
                None
            } else {
                Some(args.last())
            },
        )
    }
}

/// Evaluating an expression: the state it leaves and the value or error it
/// yields.
pub open spec fn spec_eval(s: State, e: ExprV, fuel: u64) -> (State, Result<
    ValueV,
    RuntimeErrorV,
>)
    decreases fuel, expr_size(e), 0int,
{
    match e {
        ExprV::Literal(l) => (s, Ok(lit_value(l))),
        ExprV::Grouping(inner) => spec_eval(s, *inner, fuel),
        ExprV::Variable { name, id } => (s, read_variable(s, name.lexeme, id)),
        ExprV::Assign { name, id, value } => {
            let (s1, r1) = spec_eval(s, *value, fuel);
            match r1 {
                Ok(v) => write_variable(s1, name.lexeme, id, v),
                Err(e1) => (s1, Err(e1)),
            }
        },
        ExprV::Unary { operator, right } => {
            let (s1, r1) = spec_eval(s, *right, fuel);
            match r1 {
                Ok(v) => (s1, apply_unary(operator, v)),
                Err(e1) => (s1, Err(e1)),
            }
        },
        ExprV::Binary { left, operator, right } => {
            let (s1, r1) = spec_eval(s, *left, fuel);
            match r1 {
                Ok(lv) => {
                    let (s2, r2) = spec_eval(s1, *right, fuel);
                    match r2 {
                        Ok(rv) => (s2, apply_binary(operator, lv, rv)),
                        Err(e2) => (s2, Err(e2)),
                    }
                },
                Err(e1) => (s1, Err(e1)),
            }
        },
        ExprV::Logical { left, operator, right } => {
            let (s1, r1) = spec_eval(s, *left, fuel);
            match r1 {
                Ok(lv) => {
                    if (operator is Or && truthy(lv)) || (operator is And && !truthy(lv)) {
                        (s1, Ok(lv))
                    } else {
                        spec_eval(s1, *right, fuel)
                    }
                },
                Err(e1) => (s1, Err(e1)),
            }
        },
        ExprV::Call { callee, arguments } => {
            let (s1, r1) = spec_eval(s, *callee, fuel);
            match r1 {
                Ok(c) => {
                    let (s2, r2) = spec_eval_args(s1, arguments, fuel);
                    match r2 {
                        Ok(args) => match c {
                            ValueV::Function(f) => {
                                if f.declaration < s2.functions.len() {
                                    let decl = s2.functions[f.declaration as int];
                                    if args.len() != decl.params.len() {
                                        (
                                            s2,
                                            Err(
                                                RuntimeErrorV::Arity {
                                                    expected: decl.params.len() as usize,
                                                    got: args.len() as usize,
                                                },
                                            ),
                                        )
                                    } else if fuel == 0 {
                                        (s2, Err(RuntimeErrorV::StepLimit))
                                    } else {
                                        spec_call(s2, decl, f.closure, args, (fuel - 1) as u64)
                                    }
                                } else {
                                    (s2, Err(RuntimeErrorV::NotCallable))
                                }
                            },
                            ValueV::NativeFunction(nf) => (s2, native_result(s2, nf, args)),
                            _ => (s2, Err(RuntimeErrorV::NotCallable)),
                        },
                        Err(e2) => (s2, Err(e2)),
                    }
                },
                Err(e1) => (s1, Err(e1)),
            }
        },
    }
}

/// What a native-function call yields: the arity must match; the only
/// native is `clock`, which reports the value the embedder last supplied.
pub open spec fn native_result(s: State, nf: crate::value::NativeFunctionV, args: Seq<ValueV>)
    -> Result<ValueV, RuntimeErrorV> {
    if args.len() != nf.arity as int {
        Err(RuntimeErrorV::Arity { expected: nf.arity as usize, got: args.len() as usize })
    } else if nf.name == s_clock() {
        Ok(ValueV::Number(s.clock))
    } else {
        Err(RuntimeErrorV::NotCallable)
    }
}

/// Evaluating a list of expressions left to right, stopping at the first
/// error.
pub open spec fn spec_eval_args(s: State, args: Seq<ExprV>, fuel: u64) -> (State, Result<
    Seq<ValueV>,
    RuntimeErrorV,
>)
    decreases fuel, exprs_size(args), 1int,
{
    if args.len() == 0 {
        (s, Ok(Seq::empty()))
    } else {
        let (s1, r1) = spec_eval(s, args[0], fuel);
        match r1 {
            Ok(v) => {
                let (s2, r2) = spec_eval_args(s1, args.subrange(1, args.len() as int), fuel);
                match r2 {
                    Ok(vs) => (s2, Ok(seq![v] + vs)),
                    Err(e2) => (s2, Err(e2)),
                }
            },
            Err(e1) => (s1, Err(e1)),
        }
    }
}

/// One function call: a fresh frame enclosing the closure, parameters
/// bound to arguments, the body run under it, and the pending-return slot
/// consumed: its value (or nil) is the call's result, and the caller's
/// slot is restored. The caller's current frame is restored on every path.
pub open spec fn spec_call(
    s: State,
    decl: FunctionDeclV,
    closure: usize,
    args: Seq<ValueV>,
    fuel: u64,
) -> (State, Result<ValueV, RuntimeErrorV>)
    decreases fuel, stmts_size(decl.body), 1int,
{
    let new_env = s.frames.len() as usize;
    let frame = FrameV { enclosing: Some(closure), entries: bind_params(decl.params, args) };
    let saved = s.ret;
    let s1 = State { frames: s.frames.push(frame), env: new_env, ..s };
    let (s2, r) = spec_exec_stmts(s1, decl.body, fuel);
    match r {
        Ok(()) => {
            let result = match s2.ret {
                Some(v) => v,
                None => ValueV::Nil,
            };
            (State { env: s.env, ret: saved, ..s2 }, Ok(result))
        },
        Err(e) => (State { env: s.env, ..s2 }, Err(e)),
    }
}

/// Executing a statement: the state it leaves, and unit or the error that
/// stopped it. While a return is pending, every statement is a no-op.
pub open spec fn spec_exec(s: State, st: StmtV, fuel: u64) -> (State, Result<
    (),
    RuntimeErrorV,
>)
    decreases fuel, stmt_size(st), 1int,
{
    if s.ret is Some {
        (s, Ok(()))
    } else {
        match st {
            StmtV::Expression(e) => {
                let (s1, r1) = spec_eval(s, e, fuel);
                match r1 {
                    Ok(_) => (s1, Ok(())),
                    Err(e1) => (s1, Err(e1)),
                }
            },
            StmtV::Print(e) => {
                let (s1, r1) = spec_eval(s, e, fuel);
                match r1 {
                    Ok(v) => (
                        State { out: s1.out.push(display_value(s1.functions, v)), ..s1 },
                        Ok(()),
                    ),
                    Err(e1) => (s1, Err(e1)),
                }
            },
            StmtV::VarDecl { name, initializer } => {
                match initializer {
                    Some(init) => {
                        let (s1, r1) = spec_eval(s, init, fuel);
                        match r1 {
                            Ok(v) => (
                                define_in_current(s1, name.lexeme, Some(v)),
                                Ok(()),
                            ),
                            Err(e1) => (s1, Err(e1)),
                        }
                    },
                    None => (define_in_current(s, name.lexeme, None), Ok(())),
                }
            },
            StmtV::FunctionDecl(decl) => {
                let f = Function {
                    declaration: s.functions.len() as usize,
                    closure: s.env,
                };
                let s1 = State { functions: s.functions.push(decl), ..s };
                (define_in_current(s1, decl.name.lexeme, Some(ValueV::Function(f))), Ok(()))
            },
            StmtV::If { condition, then_branch, else_branch } => {
                let (s1, r1) = spec_eval(s, condition, fuel);
                match r1 {
                    Ok(c) => {
                        if truthy(c) {
                            spec_exec(s1, *then_branch, fuel)
                        } else {
                            match else_branch {
                                Some(b) => spec_exec(s1, *b, fuel),
                                None => (s1, Ok(())),
                            }
                        }
                    },
                    Err(e1) => (s1, Err(e1)),
                }
            },
            StmtV::While { condition, body } => {
                let (s1, r1) = spec_eval(s, condition, fuel);
                match r1 {
                    Ok(c) => {
                        if !truthy(c) {
                            (s1, Ok(()))
                        } else {
                            let (s2, r2) = spec_exec(s1, *body, fuel);
                            match r2 {
                                Ok(()) => {
                                    if fuel == 0 {
                                        (s2, Err(RuntimeErrorV::StepLimit))
                                    } else {
                                        spec_exec(s2, st, (fuel - 1) as u64)
                                    }
                                },
                                Err(e2) => (s2, Err(e2)),
                            }
                        }
                    },
                    Err(e1) => (s1, Err(e1)),
                }
            },
            StmtV::Return { keyword: _, value } => {
                match value {
                    Some(e) => {
                        let (s1, r1) = spec_eval(s, e, fuel);
                        match r1 {
                            Ok(v) => (State { ret: Some(v), ..s1 }, Ok(())),
                            Err(e1) => (s1, Err(e1)),
                        }
                    },
                    None => (State { ret: Some(ValueV::Nil), ..s }, Ok(())),
                }
            },
            StmtV::Block(stmts) => {
                let new_env = s.frames.len() as usize;
                let frame = FrameV { enclosing: Some(s.env), entries: Seq::empty() };
                let s1 = State { frames: s.frames.push(frame), env: new_env, ..s };
                let (s2, r) = spec_exec_stmts(s1, stmts, fuel);
                (State { env: s.env, ..s2 }, r)
            },
        }
    }
}

/// Binding `name` in the current frame.
pub open spec fn define_in_current(s: State, name: Seq<u8>, v: Option<ValueV>) -> State {
    State {
        frames: s.frames.update(
            s.env as int,
            FrameV {
                enclosing: s.frames[s.env as int].enclosing,
                entries: frame_define(s.frames[s.env as int].entries, name, v),
            },
        ),
        ..s
    }
}

/// Executing statements in order, stopping at the first error.
pub open spec fn spec_exec_stmts(s: State, stmts: Seq<StmtV>, fuel: u64) -> (State, Result<
    (),
    RuntimeErrorV,
>)
    decreases fuel, stmts_size(stmts), 0int,
{
    if stmts.len() == 0 {
        (s, Ok(()))
    } else {
        let (s1, r1) = spec_exec(s, stmts[0], fuel);
        match r1 {
            Ok(()) => spec_exec_stmts(s1, stmts.subrange(1, stmts.len() as int), fuel),
            Err(e1) => (s1, Err(e1)),
        }
    }
}

/// Values stay well formed as the arenas grow.
pub proof fn lemma_value_wf_mono(v: ValueV, nf1: int, nr1: int, nf2: int, nr2: int)
    requires
        value_wf(v, nf1, nr1),
        nf1 <= nf2,
        nr1 <= nr2,
    ensures
        value_wf(v, nf2, nr2),
{
}

/// Binding a well-formed value in an existing frame keeps the state well
/// formed.
pub proof fn lemma_update_frame_wf(s: State, a: int, name: Seq<u8>, val: Option<ValueV>)
    requires
        state_wf(s),
        0 <= a < s.frames.len(),
        opt_value_wf(val, s.functions.len() as int, s.frames.len() as int),
    ensures
        state_wf(
            State {
                frames: s.frames.update(
                    a,
                    FrameV {
                        enclosing: s.frames[a].enclosing,
                        entries: frame_define(s.frames[a].entries, name, val),
                    },
                ),
                ..s
            },
        ),
{
    let s2 = State {
        frames: s.frames.update(
            a,
            FrameV {
                enclosing: s.frames[a].enclosing,
                entries: frame_define(s.frames[a].entries, name, val),
            },
        ),
        ..s
    };
    crate::environment::lemma_frame_index(s.frames[a].entries, name);
    assert forall|i: int, j: int|
        0 <= i < s2.frames.len() && 0 <= j < s2.frames[i].entries.len() implies opt_value_wf(
        #[trigger] s2.frames[i].entries[j].value,
        s2.functions.len() as int,
        s2.frames.len() as int,
    ) by {
        if i == a {
            let k = frame_index(s.frames[a].entries, name);
            if k >= 0 {
                if j != k {
                    assert(s2.frames[i].entries[j] == s.frames[i].entries[j]);
                    assert(opt_value_wf(
                        s.frames[i].entries[j].value,
                        s.functions.len() as int,
                        s.frames.len() as int,
                    ));
                }
            } else {
                if j < s.frames[a].entries.len() {
                    assert(s2.frames[i].entries[j] == s.frames[i].entries[j]);
                    assert(opt_value_wf(
                        s.frames[i].entries[j].value,
                        s.functions.len() as int,
                        s.frames.len() as int,
                    ));
                }
            }
        } else {
            assert(s2.frames[i] == s.frames[i]);
            assert(opt_value_wf(
                s.frames[i].entries[j].value,
                s.functions.len() as int,
                s.frames.len() as int,
            ));
        }
    }
}

/// Assigning a well-formed value along the chain keeps the state well
/// formed and the arena's length.
pub proof fn lemma_env_assign_wf(s: State, e: int, name: Seq<u8>, v: ValueV)
    requires
        state_wf(s),
        value_wf(v, s.functions.len() as int, s.frames.len() as int),
    ensures
        match env_assign(s.frames, e, name, v) {
            Some(fr2) => fr2.len() == s.frames.len() && state_wf(State { frames: fr2, ..s }),
            None => true,
        },
    decreases e,
{
    if 0 <= e < s.frames.len() {
        if frame_index(s.frames[e].entries, name) >= 0 {
            lemma_update_frame_wf(s, e, name, Some(v));
        } else {
            match s.frames[e].enclosing {
                Some(p) => {
                    if p < e {
                        lemma_env_assign_wf(s, p as int, name, v);
                    }
                },
                None => {},
            }
        }
    }
}

/// Executing a statement list under the frame `block_env`, the previous
/// current frame being restored on every path.
pub open spec fn spec_block(s: State, stmts: Seq<StmtV>, block_env: usize, fuel: u64) -> (
    State,
    Result<(), RuntimeErrorV>,
) {
    let s1 = State { env: block_env, ..s };
    let (s2, r) = spec_exec_stmts(s1, stmts, fuel);
    (State { env: s.env, ..s2 }, r)
}

/// Prefixes `prefix` to the values of an argument-evaluation outcome.
pub open spec fn prepend_values(
    prefix: Seq<ValueV>,
    out: (State, Result<Seq<ValueV>, RuntimeErrorV>),
) -> (State, Result<Seq<ValueV>, RuntimeErrorV>) {
    match out.1 {
        Ok(vs) => (out.0, Ok(prefix + vs)),
        Err(_) => out,
    }
}

/// The images of a list of runtime values.
pub open spec fn values_view(s: Seq<crate::value::Value>) -> Seq<ValueV> {
    Seq::new(s.len(), |i: int| s[i]@)
}

} // verus!
