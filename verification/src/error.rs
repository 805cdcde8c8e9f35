//! Errors surfaced while running a program, and the rendering of
//! diagnostics to user-visible text.

use vstd::prelude::*;
use crate::token::{Token, TokenV, TokenTypeV, clone_bytes};
use crate::text::{
    s_operand_number, t_operand_number,
    s_operands_numbers_or_strings, t_operands_numbers_or_strings,
    s_undefined_variable, t_undefined_variable,
    s_uninitialized_variable, t_uninitialized_variable,
    s_quote, t_quote,
    s_not_callable, t_not_callable,
    s_expected_prefix, t_expected_prefix,
    s_arguments_but_got, t_arguments_but_got,
    s_step_limit, t_step_limit,
    s_at_end, t_at_end,
    s_at_quote, t_at_quote,
    s_line_open, t_line_open,
    s_col_sep, t_col_sep,
    s_bracket_close, t_bracket_close,
    dec_digits, u64_to_dec, append_bytes,
};

verus! {

/// A runtime error: the reason evaluation stopped.
pub enum RuntimeError {
    /// An operand of `-`, `*`, `/`, `<`, `<=`, `>`, `>=` or unary `-` was
    /// not a number.
    NotNumber,
    /// The operands of `+` were neither two numbers nor two strings.
    NotAddable,
    /// A name was read or assigned that is bound nowhere in scope.
    Undefined(Vec<u8>),
    /// A declared variable was read before any value was assigned to it.
    Uninitialized(Vec<u8>),
    /// Something other than a function was called.
    NotCallable,
    /// A call passed the wrong number of arguments.
    Arity { expected: usize, got: usize },
    /// The step budget handed to the interpreter ran out.
    StepLimit,
}

/// Mathematical image of a `RuntimeError`.
#[verifier::ext_equal]
pub ghost enum RuntimeErrorV {
    NotNumber,
    NotAddable,
    Undefined(Seq<u8>),
    Uninitialized(Seq<u8>),
    NotCallable,
    Arity { expected: usize, got: usize },
    StepLimit,
}

impl View for RuntimeError {
    type V = RuntimeErrorV;

    open spec fn view(&self) -> RuntimeErrorV {
        match self {
            RuntimeError::NotNumber => RuntimeErrorV::NotNumber,
            RuntimeError::NotAddable => RuntimeErrorV::NotAddable,
            RuntimeError::Undefined(n) => RuntimeErrorV::Undefined(n@),
            RuntimeError::Uninitialized(n) => RuntimeErrorV::Uninitialized(n@),
            RuntimeError::NotCallable => RuntimeErrorV::NotCallable,
            RuntimeError::Arity { expected, got } => RuntimeErrorV::Arity {
                expected: *expected,
                got: *got,
            },
            RuntimeError::StepLimit => RuntimeErrorV::StepLimit,
        }
    }
}

/// The user-visible message of a runtime error.
pub open spec fn error_text(e: RuntimeErrorV) -> Seq<u8> {
    match e {
        RuntimeErrorV::NotNumber => s_operand_number(),
        RuntimeErrorV::NotAddable => s_operands_numbers_or_strings(),
        RuntimeErrorV::Undefined(n) => s_undefined_variable() + n + s_quote(),
        RuntimeErrorV::Uninitialized(n) => s_uninitialized_variable() + n + s_quote(),
        RuntimeErrorV::NotCallable => s_not_callable(),
        RuntimeErrorV::Arity { expected, got } => s_expected_prefix() + dec_digits(
            expected as nat,
        ) + s_arguments_but_got() + dec_digits(got as nat),
        RuntimeErrorV::StepLimit => s_step_limit(),
    }
}

impl RuntimeError {
    /// Renders the message of this error.
    pub fn message(&self) -> (r: Vec<u8>)
        ensures
            r@ == error_text(self@),
    {
        match self {
            RuntimeError::NotNumber => t_operand_number(),
            RuntimeError::NotAddable => t_operands_numbers_or_strings(),
            RuntimeError::Undefined(n) => {
                let mut r = t_undefined_variable();
                append_bytes(&mut r, n);
                let q = t_quote();
                append_bytes(&mut r, &q);
                r
            },
            RuntimeError::Uninitialized(n) => {
                let mut r = t_uninitialized_variable();
                append_bytes(&mut r, n);
                let q = t_quote();
                append_bytes(&mut r, &q);
                r
            },
            RuntimeError::NotCallable => t_not_callable(),
            RuntimeError::Arity { expected, got } => {
                let mut r = t_expected_prefix();
                let e = u64_to_dec(*expected as u64);
                append_bytes(&mut r, &e);
                let mid = t_arguments_but_got();
                append_bytes(&mut r, &mid);
                let g = u64_to_dec(*got as u64);
                append_bytes(&mut r, &g);
                r
            },
            RuntimeError::StepLimit => t_step_limit(),
        }
    }

    /// Structural copy; the copy denotes the same error.
    pub fn duplicate(&self) -> (r: RuntimeError)
        ensures
            r@ == self@,
    {
        match self {
            RuntimeError::NotNumber => RuntimeError::NotNumber,
            RuntimeError::NotAddable => RuntimeError::NotAddable,
            RuntimeError::Undefined(n) => RuntimeError::Undefined(clone_bytes(n)),
            RuntimeError::Uninitialized(n) => RuntimeError::Uninitialized(clone_bytes(n)),
            RuntimeError::NotCallable => RuntimeError::NotCallable,
            RuntimeError::Arity { expected, got } => RuntimeError::Arity {
                expected: *expected,
                got: *got,
            },
            RuntimeError::StepLimit => RuntimeError::StepLimit,
        }
    }
}

/// The text of a diagnostic tied to a token: ` at end` for the end-of-file
/// token, ` at '<lexeme>'` otherwise.
pub open spec fn located_text(message: Seq<u8>, t: TokenV) -> Seq<u8> {
    if t.token_type is Eof {
        message + s_at_end()
    } else {
        message + s_at_quote() + t.lexeme + s_quote()
    }
}

/// Builds the message of a diagnostic at `token`.
pub fn make_error(token: &Token, message: &Vec<u8>) -> (r: Vec<u8>)
    ensures
        r@ == located_text(message@, token@),
{
    let mut r = clone_bytes(message);
    if token.token_type.kind_tag() == 40 {
        proof {
            assert(token@.token_type is Eof) by {
                let k = token@.token_type;
                assert(crate::token::spec_kind_tag(k) == 40);
            }
        }
        let tail = t_at_end();
        append_bytes(&mut r, &tail);
    } else {
        proof {
            assert(!(token@.token_type is Eof));
        }
        let mid = t_at_quote();
        append_bytes(&mut r, &mid);
        append_bytes(&mut r, &token.lexeme);
        let q = t_quote();
        append_bytes(&mut r, &q);
    }
    r
}

/// The text of a located diagnostic: the end-of-file token gets
/// `<message> at end`; any other token gets
/// `[line <l>, col <c>] <message> at '<lexeme>'`.
pub open spec fn reported_text(message: Seq<u8>, t: TokenV) -> Seq<u8> {
    if t.token_type is Eof {
        message + s_at_end()
    } else {
        s_line_open() + dec_digits(t.line as nat) + s_col_sep() + dec_digits(t.col as nat)
            + s_bracket_close() + message + s_at_quote() + t.lexeme + s_quote()
    }
}

/// Builds the positioned message of a diagnostic at `token`.
pub fn report_error(token: &Token, message: &Vec<u8>) -> (r: Vec<u8>)
    ensures
        r@ == reported_text(message@, token@),
{
    if token.token_type.kind_tag() == 40 {
        proof {
            assert(token@.token_type is Eof) by {
                let k = token@.token_type;
                assert(crate::token::spec_kind_tag(k) == 40);
            }
        }
        let mut r = clone_bytes(message);
        let tail = t_at_end();
        append_bytes(&mut r, &tail);
        r
    } else {
        proof {
            assert(!(token@.token_type is Eof));
        }
        let mut r = t_line_open();
        let l = u64_to_dec(token.line as u64);
        append_bytes(&mut r, &l);
        let sep = t_col_sep();
        append_bytes(&mut r, &sep);
        let c = u64_to_dec(token.col as u64);
        append_bytes(&mut r, &c);
        let close = t_bracket_close();
        append_bytes(&mut r, &close);
        append_bytes(&mut r, message);
        let mid = t_at_quote();
        append_bytes(&mut r, &mid);
        append_bytes(&mut r, &token.lexeme);
        let q = t_quote();
        append_bytes(&mut r, &q);
        r
    }
}

} // verus!
