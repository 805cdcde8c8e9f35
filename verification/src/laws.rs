//! The library's general guarantees, stated and proved over the
//! definitional semantics.

use vstd::prelude::*;
use crate::ast::{StmtV, ExprV, FunctionDeclV};
use crate::value::{ValueV, Function, truthy, val_eq};
use crate::error::RuntimeErrorV;
use crate::environment::FrameV;
use crate::semantics::{State, spec_eval, spec_exec, spec_exec_stmts, spec_call, bind_params,
    define_in_current};
use crate::number::is_nan_bits;
use crate::resolver::{RState, spec_resolve_local, find_depth};

verus! {

/// While a return is pending, executing any statement changes nothing:
/// statements after a `return`, in any nesting, never run.
pub proof fn lemma_pending_return_skips(s: State, st: StmtV, fuel: u64)
    requires
        s.ret is Some,
    ensures
        spec_exec(s, st, fuel) == (s, Ok::<(), RuntimeErrorV>(())),
{
}

/// When a function body leaves a pending return, the caller receives
/// exactly that value, and its own pending-return slot is restored.
pub proof fn lemma_return_reaches_caller(
    s: State,
    decl: FunctionDeclV,
    closure: usize,
    args: Seq<ValueV>,
    fuel: u64,
)
    ensures
        ({
            let frame = FrameV {
                enclosing: Some(closure),
                entries: bind_params(decl.params, args),
            };
            let s1 = State {
                frames: s.frames.push(frame),
                env: s.frames.len() as usize,
                ..s
            };
            let (sb, rb) = spec_exec_stmts(s1, decl.body, fuel);
            (rb is Ok && sb.ret is Some) ==> spec_call(s, decl, closure, args, fuel) == (
                (State { env: s.env, ret: s.ret, ..sb }),
                Ok::<ValueV, RuntimeErrorV>(sb.ret->Some_0),
            )
        }),
{
}

/// A function value is constructed capturing the environment current at
/// its declaration, not at any call: executing a declaration binds, in the
/// current scope, a function closing over exactly that scope.
pub proof fn lemma_closure_captures_declaration_scope(s: State, d: FunctionDeclV, fuel: u64)
    requires
        s.ret is None,
    ensures
        spec_exec(s, StmtV::FunctionDecl(d), fuel) == (
            define_in_current(
                State { functions: s.functions.push(d), ..s },
                d.name.lexeme,
                Some(
                    ValueV::Function(
                        Function { declaration: s.functions.len() as usize, closure: s.env },
                    ),
                ),
            ),
            Ok::<(), RuntimeErrorV>(()),
        ),
{
}

/// When a call is dispatched, the fresh frame encloses the function's
/// captured scope, never the caller's current scope.
pub proof fn lemma_call_runs_under_closure(
    s: State,
    decl: FunctionDeclV,
    closure: usize,
    args: Seq<ValueV>,
    fuel: u64,
)
    requires
        s.frames.len() < usize::MAX,
    ensures
        ({
            let frame = FrameV {
                enclosing: Some(closure),
                entries: bind_params(decl.params, args),
            };
            let s1 = State {
                frames: s.frames.push(frame),
                env: s.frames.len() as usize,
                ..s
            };
            s1.frames[s1.env as int].enclosing == Some(closure)
        }),
{
}

/// In `a or b`, `b` is evaluated exactly when `a` is falsy, and the result
/// is the deciding operand, unconverted.
pub proof fn lemma_or_short_circuit(s: State, left: ExprV, right: ExprV, fuel: u64)
    ensures
        ({
            let e = ExprV::Logical {
                left: Box::new(left),
                operator: crate::token::TokenTypeV::Or,
                right: Box::new(right),
            };
            let (s1, r1) = spec_eval(s, left, fuel);
            match r1 {
                Ok(lv) => {
                    &&& (truthy(lv) ==> spec_eval(s, e, fuel) == (
                        s1,
                        Ok::<ValueV, RuntimeErrorV>(lv),
                    ))
                    &&& (!truthy(lv) ==> spec_eval(s, e, fuel) == spec_eval(s1, right, fuel))
                },
                Err(m) => spec_eval(s, e, fuel) == (s1, Err::<ValueV, RuntimeErrorV>(m)),
            }
        }),
{
}

/// In `a and b`, `b` is evaluated exactly when `a` is truthy, and the
/// result is the deciding operand, unconverted.
pub proof fn lemma_and_short_circuit(s: State, left: ExprV, right: ExprV, fuel: u64)
    ensures
        ({
            let e = ExprV::Logical {
                left: Box::new(left),
                operator: crate::token::TokenTypeV::And,
                right: Box::new(right),
            };
            let (s1, r1) = spec_eval(s, left, fuel);
            match r1 {
                Ok(lv) => {
                    &&& (!truthy(lv) ==> spec_eval(s, e, fuel) == (
                        s1,
                        Ok::<ValueV, RuntimeErrorV>(lv),
                    ))
                    &&& (truthy(lv) ==> spec_eval(s, e, fuel) == spec_eval(s1, right, fuel))
                },
                Err(m) => spec_eval(s, e, fuel) == (s1, Err::<ValueV, RuntimeErrorV>(m)),
            }
        }),
{
}

/// A block executes its statements under a fresh scope enclosing the
/// current one, and the current scope is restored when it ends: names
/// declared inside are not visible after it.
pub proof fn lemma_block_scopes(s: State, stmts: Seq<StmtV>, fuel: u64)
    requires
        s.ret is None,
    ensures
        spec_exec(s, StmtV::Block(stmts), fuel).0.env == s.env,
{
}

/// Declaring a name binds it in the current scope only: every other frame,
/// an outer binding of the same name included, is untouched (shadowing
/// does not mutate).
pub proof fn lemma_define_is_local(s: State, name: Seq<u8>, v: Option<ValueV>, i: int)
    requires
        0 <= i < s.frames.len(),
        (s.env as int) < s.frames.len(),
        i != s.env as int,
    ensures
        define_in_current(s, name, v).frames[i] == s.frames[i],
{
}

/// The language's equality is reflexive on booleans, strings, nil, and
/// every number that is not a NaN.
pub proof fn lemma_equality_reflexive(v: ValueV)
    requires
        match v {
            ValueV::Number(n) => !is_nan_bits(n),
            ValueV::Boolean(_) => true,
            ValueV::Str(_) => true,
            ValueV::Nil => true,
            _ => false,
        },
    ensures
        val_eq(v, v),
{
}

/// Values of different kinds are never equal: anything two equal values
/// share is their kind.
pub proof fn lemma_equality_within_kinds(a: ValueV, b: ValueV)
    ensures
        val_eq(a, b) ==> ((a is Nil && b is Nil) || (a is Boolean && b is Boolean) || (
        a is Number && b is Number) || (a is Str && b is Str)),
{
}


/// The resolver's side-table guarantee: recording a variable use either
/// adds exactly that use's identity, at a distance that is non-negative
/// and within the enclosing scope depth, or (when no scope declares the
/// name) adds nothing, the use then reading the globals. The table is a
/// map, so no identity ever holds two distances.
pub proof fn lemma_resolution_distances(rs: RState, id: u64, name: Seq<u8>)
    ensures
        ({
            let rs2 = spec_resolve_local(rs, id, name);
            let d = find_depth(rs.scopes, name);
            &&& rs2.scopes == rs.scopes
            &&& rs2.diags == rs.diags
            &&& rs2.in_function == rs.in_function
            &&& (d == -1 ==> rs2.locals == rs.locals)
            &&& (0 <= d <= u32::MAX ==> 0 <= d < rs.scopes.len() && rs2.locals == rs.locals.insert(
                id,
                d as u32,
            ))
        }),
{
    crate::resolver::lemma_find_depth_bounds(rs.scopes, name, rs.scopes.len() - 1);
}

} // verus!
