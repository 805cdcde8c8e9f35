//! The recursive-descent parser: tokens to statements.
//!
//! Expressions are parsed with one level per precedence tier (assignment,
//! `or`, `and`, equality, comparison, term, factor, unary, call, primary);
//! assignment is right-associative and its target must be a bare variable;
//! `for` is desugared into `while` here, so later passes never see it. A
//! failed declaration is reported into the diagnostics list and the parser
//! resynchronizes past the next semicolon or to the next statement
//! keyword. The `spec_` functions below define this whole behaviour, from
//! `spec_parse` down to `spec_primary`, as total functions of the parser
//! state; the verified executable layer currently covers the cursor
//! primitives (`new`, `peek`, `check`, `advance`, `consume`,
//! `consume_matching`), each proved against the same state model.
//!
//! `Variable` and `Assign` nodes get fresh identities from a counter
//! (saturating at its maximum, which a real input never reaches).

use vstd::prelude::*;
use crate::token::{Token, TokenV, TokenType, TokenTypeV, same_kind};
use crate::ast::{ExprV, StmtV, LiteralV, FunctionDeclV, tokens_view};
use crate::error::located_text;
use crate::text::{s_expect_variable_name, s_expect_semicolon_after_var, s_expect_function_name,
    s_expect_lparen_after_fun_name, s_too_many_params, s_expect_param_name, s_expect_rparen_after_params, s_expect_lbrace_before_body,
    s_expect_lparen_after_for, s_expect_semicolon_after_loop_cond, s_expect_rparen_after_for, s_expect_lparen_after_if,
    s_expect_rparen_after_cond, s_expect_lparen_after_while, s_expect_semicolon_after_return,
    s_expect_semicolon_after_value,
    s_expect_rbrace_after_block, s_expect_semicolon_after_expression, s_invalid_assignment_target, s_too_many_arguments,
    s_expect_rparen_after_expression, s_expect_rparen_after_arguments, s_expect_expression};

verus! {

/// The parser's state: the token stream, the cursor, the next fresh
/// expression identity, and the diagnostics reported so far.
pub struct Parser {
    pub tokens: Vec<Token>,
    pub current: usize,
    pub next_id: u64,
    pub diagnostics: Vec<Vec<u8>>,
}

/// Mathematical image of a `Parser`.
#[verifier::ext_equal]
pub ghost struct PState {
    pub tokens: Seq<TokenV>,
    pub current: usize,
    pub next_id: u64,
    pub diags: Seq<Seq<u8>>,
}

impl View for Parser {
    type V = PState;

    open spec fn view(&self) -> PState {
        PState {
            tokens: tokens_view(self.tokens@),
            current: self.current,
            next_id: self.next_id,
            diags: Seq::new(self.diagnostics@.len(), |i: int| self.diagnostics@[i]@),
        }
    }
}

/// Well-formedness: there are tokens, the cursor is on one of them, and
/// the last one is the end-of-file token (so the cursor can never run off
/// the end).
pub open spec fn pwf(s: PState) -> bool {
    &&& 0 < s.tokens.len() <= usize::MAX
    &&& (s.current as int) < s.tokens.len()
    &&& s.tokens.last().token_type is Eof
}

/// The token under the cursor.
pub open spec fn speek(s: PState) -> TokenV {
    s.tokens[s.current as int]
}

/// Whether the cursor is on the end-of-file token.
pub open spec fn at_end(s: PState) -> bool {
    speek(s).token_type is Eof
}

/// The state after moving past the current token (the cursor never moves
/// past the end-of-file token).
pub open spec fn padv(s: PState) -> PState {
    if !at_end(s) && (s.current + 1) < s.tokens.len() {
        PState { current: (s.current + 1) as usize, ..s }
    } else {
        s
    }
}

/// The state with one more fresh identity handed out (saturating).
pub open spec fn pbump(s: PState) -> PState {
    if s.next_id < u64::MAX {
        PState { next_id: (s.next_id + 1) as u64, ..s }
    } else {
        s
    }
}

/// The state with one more diagnostic reported.
pub open spec fn preport(s: PState, msg: Seq<u8>) -> PState {
    PState { diags: s.diags.push(msg), ..s }
}

/// Whether the kind of `t` is among `kinds`.
pub open spec fn kind_in(t: TokenTypeV, kinds: Seq<TokenTypeV>) -> bool {
    exists|i: int| 0 <= i < kinds.len() && same_kind(t, #[trigger] kinds[i])
}

/// Advancing keeps well-formedness and never decreases the cursor.
pub proof fn lemma_padv(s: PState)
    requires
        pwf(s),
    ensures
        pwf(padv(s)),
        s.current <= padv(s).current,
        !at_end(s) ==> padv(s).current == s.current + 1,
{
    if !at_end(s) {
        if s.current as int == s.tokens.len() - 1 {
            assert(speek(s) == s.tokens.last());
            assert(false);
        }
        assert(s.current + 1 < s.tokens.len());
    }
}

impl Parser {
    /// Whether this parser is well formed.
    pub open spec fn wf(&self) -> bool {
        pwf(self@)
    }

    /// A parser over `tokens`. The stream must end with the end-of-file
    /// token, as the scanner guarantees.
    pub fn new(tokens: Vec<Token>) -> (r: Parser)
        ensures
            r@ == (PState {
                tokens: tokens_view(tokens@),
                current: 0,
                next_id: 0,
                diags: Seq::empty(),
            }),
            tokens@.len() > 0 && tokens@.last()@.token_type is Eof ==> r.wf(),
    {
        let r = Parser { tokens, current: 0, next_id: 0, diagnostics: Vec::new() };
        proof {
            vstd::std_specs::vec::axiom_spec_len(&r.tokens);
            assert(r@.diags =~= Seq::<Seq<u8>>::empty());
            assert(r@ =~~= (PState {
                tokens: tokens_view(r.tokens@),
                current: 0,
                next_id: 0,
                diags: Seq::empty(),
            }));
        }
        r
    }

    /// The diagnostics reported while parsing.
    pub fn diagnostics(&self) -> (r: &Vec<Vec<u8>>)
        ensures
            r@.len() == self@.diags.len(),
            forall|i: int| 0 <= i < r@.len() ==> r@[i]@ == self@.diags[i],
    {
        &self.diagnostics
    }

    /// A copy of the token under the cursor.
    fn peek(&self) -> (t: Token)
        requires
            self.wf(),
        ensures
            t@ == speek(self@),
    {
        self.tokens[self.current].duplicate()
    }

    /// Whether the cursor is on the end-of-file token.
    fn is_at_end(&self) -> (r: bool)
        requires
            self.wf(),
        ensures
            r == at_end(self@),
    {
        self.tokens[self.current].token_type.kind_tag() == 40
    }

    /// Whether the current token is of the same kind as `k`.
    fn check(&self, k: &TokenType) -> (r: bool)
        requires
            self.wf(),
        ensures
            r == same_kind(speek(self@).token_type, k@),
    {
        self.tokens[self.current].token_type.is_same_kind(k)
    }

    /// Moves past the current token and returns it; the cursor never moves
    /// past the end-of-file token.
    fn advance(&mut self) -> (t: Token)
        requires
            old(self).wf(),
        ensures
            final(self).wf(),
            t@ == speek(old(self)@),
            final(self)@ == padv(old(self)@),
    {
        let t = self.tokens[self.current].duplicate();
        if self.tokens[self.current].token_type.kind_tag() != 40 {
            proof {
                lemma_padv(self@);
            }
            self.current = self.current + 1;
        }
        proof {
            assert(self@ =~~= padv(old(self)@));
        }
        t
    }

    /// If the current token's kind is among `kinds`, moves past it and
    /// returns it.
    fn consume_matching(&mut self, kinds: &Vec<TokenType>) -> (r: Option<Token>)
        requires
            old(self).wf(),
        ensures
            final(self).wf(),
            kind_in(speek(old(self)@).token_type, tokens_kinds(kinds@)) ==> (
            r matches Some(t) && t@ == speek(old(self)@) && final(self)@ == padv(old(self)@)),
            !kind_in(speek(old(self)@).token_type, tokens_kinds(kinds@)) ==> (r is None
                && final(self)@ == old(self)@),
    {
        let n = kinds.len();
        let mut i: usize = 0;
        while i < n
            invariant
                old(self) == self,
                self.wf(),
                n == kinds@.len(),
                0 <= i <= n,
                forall|j: int|
                    0 <= j < i ==> !same_kind(speek(self@).token_type, #[trigger] kinds@[j]@),
            decreases n - i,
        {
            if self.check(&kinds[i]) {
                proof {
                    assert(same_kind(speek(self@).token_type, tokens_kinds(kinds@)[i as int]));
                }
                let t = self.advance();
                return Some(t);
            }
            i += 1;
        }
        proof {
            assert(forall|j: int|
                0 <= j < n ==> !same_kind(
                    speek(self@).token_type,
                    #[trigger] tokens_kinds(kinds@)[j],
                ));
        }
        None
    }

    /// Requires the current token to be of kind `k`: moves past it, or
    /// reports `message` located at it.
    fn consume(&mut self, k: &TokenType, message: Vec<u8>) -> (r: Result<Token, Vec<u8>>)
        requires
            old(self).wf(),
        ensures
            final(self).wf(),
            same_kind(speek(old(self)@).token_type, k@) ==> (r matches Ok(t) && t@ == speek(
                old(self)@,
            ) && final(self)@ == padv(old(self)@)),
            !same_kind(speek(old(self)@).token_type, k@) ==> (r matches Err(m) && m@
                == located_text(message@, speek(old(self)@)) && final(self)@ == old(self)@),
    {
        if self.check(k) {
            Ok(self.advance())
        } else {
            let t = self.peek();
            Err(crate::error::make_error(&t, &message))
        }
    }
}

/// The kinds of a token list.
pub open spec fn tokens_kinds(kinds: Seq<TokenType>) -> Seq<TokenTypeV> {
    Seq::new(kinds.len(), |i: int| kinds[i]@)
}


/// The number of tokens not yet consumed: the parser's termination
/// measure.
pub open spec fn prem(s: PState) -> int {
    if (s.current as int) <= s.tokens.len() {
        s.tokens.len() - s.current
    } else {
        0
    }
}

/// A primary expression: a literal, a variable use (given a fresh
/// identity), or a parenthesized expression.
pub open spec fn spec_primary(s: PState) -> (PState, Result<ExprV, Seq<u8>>)
    decreases prem(s), 18int,
{
    let t = speek(s);
    let s1 = padv(s);
    match t.token_type {
        TokenTypeV::LeftParen => {
            if prem(s1) < prem(s) {
                let (s2, r2) = spec_expression(s1);
                match r2 {
                    Ok(inner) => {
                        if same_kind(speek(s2).token_type, TokenTypeV::RightParen) {
                            (padv(s2), Ok(ExprV::Grouping(Box::new(inner))))
                        } else {
                            (
                                s2,
                                Err(
                                    located_text(
                                        s_expect_rparen_after_expression(),
                                        speek(s2),
                                    ),
                                ),
                            )
                        }
                    },
                    Err(m) => (s2, Err(m)),
                }
            } else {
                (s, Err(s_expect_expression()))
            }
        },
        TokenTypeV::Str(p) => (s1, Ok(ExprV::Literal(LiteralV::Str(p)))),
        TokenTypeV::Number(n) => (s1, Ok(ExprV::Literal(LiteralV::Number(n)))),
        TokenTypeV::False => (s1, Ok(ExprV::Literal(LiteralV::False))),
        TokenTypeV::Nil => (s1, Ok(ExprV::Literal(LiteralV::Nil))),
        TokenTypeV::True => (s1, Ok(ExprV::Literal(LiteralV::True))),
        TokenTypeV::Identifier => (
            pbump(s1),
            Ok(ExprV::Variable { name: t, id: s1.next_id }),
        ),
        _ => (s1, Err(located_text(s_expect_expression(), speek(s1)))),
    }
}

/// The comma-separated arguments of a call, after the opening parenthesis;
/// more than 255 are reported but parsing goes on.
pub open spec fn spec_arguments(s: PState, args: Seq<ExprV>) -> (PState, Result<
    Seq<ExprV>,
    Seq<u8>,
>)
    decreases prem(s), 45int,
{
    let s0 = if args.len() >= 255 {
        preport(s, located_text(s_too_many_arguments(), speek(s)))
    } else {
        s
    };
    let (s1, r1) = spec_expression(s0);
    match r1 {
        Ok(a) => {
            if same_kind(speek(s1).token_type, TokenTypeV::Comma) {
                let s2 = padv(s1);
                if prem(s2) < prem(s) {
                    spec_arguments(s2, args.push(a))
                } else {
                    (s2, Err(s_expect_expression()))
                }
            } else {
                (s1, Ok(args.push(a)))
            }
        },
        Err(m) => (s1, Err(m)),
    }
}

/// Zero or more call suffixes applied to a parsed callee.
pub open spec fn spec_call_tail(s: PState, callee: ExprV) -> (PState, Result<ExprV, Seq<u8>>)
    decreases prem(s), 21int,
{
    if same_kind(speek(s).token_type, TokenTypeV::LeftParen) {
        let s1 = padv(s);
        if same_kind(speek(s1).token_type, TokenTypeV::RightParen) {
            let s2 = padv(s1);
            if prem(s2) < prem(s) {
                spec_call_tail(
                    s2,
                    ExprV::Call { callee: Box::new(callee), arguments: Seq::empty() },
                )
            } else {
                (s2, Err(s_expect_expression()))
            }
        } else {
            if prem(s1) < prem(s) {
                let (s2, r2) = spec_arguments(s1, Seq::empty());
                match r2 {
                    Ok(args) => {
                        if same_kind(speek(s2).token_type, TokenTypeV::RightParen) {
                            let s3 = padv(s2);
                            if prem(s3) < prem(s) {
                                spec_call_tail(
                                    s3,
                                    ExprV::Call { callee: Box::new(callee), arguments: args },
                                )
                            } else {
                                (s3, Err(s_expect_expression()))
                            }
                        } else {
                            (
                                s2,
                                Err(
                                    located_text(
                                        s_expect_rparen_after_arguments(),
                                        speek(s2),
                                    ),
                                ),
                            )
                        }
                    },
                    Err(m) => (s2, Err(m)),
                }
            } else {
                (s1, Err(s_expect_expression()))
            }
        }
    } else {
        (s, Ok(callee))
    }
}

/// A call expression: a primary followed by call suffixes.
pub open spec fn spec_call_expr(s: PState) -> (PState, Result<ExprV, Seq<u8>>)
    decreases prem(s), 22int,
{
    let (s1, r1) = spec_primary(s);
    match r1 {
        Ok(c) => {
            if prem(s1) <= prem(s) {
                spec_call_tail(s1, c)
            } else {
                (s1, Err(s_expect_expression()))
            }
        },
        Err(m) => (s1, Err(m)),
    }
}

/// A unary expression: `!` or `-` applied to a unary expression, or a call
/// expression.
pub open spec fn spec_unary(s: PState) -> (PState, Result<ExprV, Seq<u8>>)
    decreases prem(s), 24int,
{
    let t = speek(s);
    if same_kind(t.token_type, TokenTypeV::Bang) || same_kind(t.token_type, TokenTypeV::Minus) {
        let s1 = padv(s);
        if prem(s1) < prem(s) {
            let (s2, r2) = spec_unary(s1);
            match r2 {
                Ok(right) => (
                    s2,
                    Ok(ExprV::Unary { operator: t.token_type, right: Box::new(right) }),
                ),
                Err(m) => (s2, Err(m)),
            }
        } else {
            (s1, Err(s_expect_expression()))
        }
    } else {
        spec_call_expr(s)
    }
}

/// Left-associative chain at the `factor` level.
pub open spec fn spec_factor_tail(s: PState, acc: ExprV) -> (PState, Result<ExprV, Seq<u8>>)
    decreases prem(s), 25int,
{
    if same_kind(speek(s).token_type, TokenTypeV::Slash) || same_kind(speek(s).token_type, TokenTypeV::Star) {
        let op = speek(s).token_type;
        let s1 = padv(s);
        if prem(s1) < prem(s) {
            let (s2, r2) = spec_unary(s1);
            match r2 {
                Ok(right) => {
                    if prem(s2) < prem(s) {
                        spec_factor_tail(
                            s2,
                            ExprV::Binary {
                                left: Box::new(acc),
                                operator: op,
                                right: Box::new(right),
                            },
                        )
                    } else {
                        (s2, Err(s_expect_expression()))
                    }
                },
                Err(m) => (s2, Err(m)),
            }
        } else {
            (s1, Err(s_expect_expression()))
        }
    } else {
        (s, Ok(acc))
    }
}

/// An expression at the `factor` level.
pub open spec fn spec_factor(s: PState) -> (PState, Result<ExprV, Seq<u8>>)
    decreases prem(s), 26int,
{
    let (s1, r1) = spec_unary(s);
    match r1 {
        Ok(first) => {
            if prem(s1) <= prem(s) {
                spec_factor_tail(s1, first)
            } else {
                (s1, Err(s_expect_expression()))
            }
        },
        Err(m) => (s1, Err(m)),
    }
}

/// Left-associative chain at the `term` level.
pub open spec fn spec_term_tail(s: PState, acc: ExprV) -> (PState, Result<ExprV, Seq<u8>>)
    decreases prem(s), 27int,
{
    if same_kind(speek(s).token_type, TokenTypeV::Minus) || same_kind(speek(s).token_type, TokenTypeV::Plus) {
        let op = speek(s).token_type;
        let s1 = padv(s);
        if prem(s1) < prem(s) {
            let (s2, r2) = spec_factor(s1);
            match r2 {
                Ok(right) => {
                    if prem(s2) < prem(s) {
                        spec_term_tail(
                            s2,
                            ExprV::Binary {
                                left: Box::new(acc),
                                operator: op,
                                right: Box::new(right),
                            },
                        )
                    } else {
                        (s2, Err(s_expect_expression()))
                    }
                },
                Err(m) => (s2, Err(m)),
            }
        } else {
            (s1, Err(s_expect_expression()))
        }
    } else {
        (s, Ok(acc))
    }
}

/// An expression at the `term` level.
pub open spec fn spec_term(s: PState) -> (PState, Result<ExprV, Seq<u8>>)
    decreases prem(s), 28int,
{
    let (s1, r1) = spec_factor(s);
    match r1 {
        Ok(first) => {
            if prem(s1) <= prem(s) {
                spec_term_tail(s1, first)
            } else {
                (s1, Err(s_expect_expression()))
            }
        },
        Err(m) => (s1, Err(m)),
    }
}

/// Left-associative chain at the `comparison` level.
pub open spec fn spec_comparison_tail(s: PState, acc: ExprV) -> (PState, Result<ExprV, Seq<u8>>)
    decreases prem(s), 29int,
{
    if same_kind(speek(s).token_type, TokenTypeV::Greater) || same_kind(speek(s).token_type, TokenTypeV::GreaterEqual) || same_kind(speek(s).token_type, TokenTypeV::Less) || same_kind(speek(s).token_type, TokenTypeV::LessEqual) {
        let op = speek(s).token_type;
        let s1 = padv(s);
        if prem(s1) < prem(s) {
            let (s2, r2) = spec_term(s1);
            match r2 {
                Ok(right) => {
                    if prem(s2) < prem(s) {
                        spec_comparison_tail(
                            s2,
                            ExprV::Binary {
                                left: Box::new(acc),
                                operator: op,
                                right: Box::new(right),
                            },
                        )
                    } else {
                        (s2, Err(s_expect_expression()))
                    }
                },
                Err(m) => (s2, Err(m)),
            }
        } else {
            (s1, Err(s_expect_expression()))
        }
    } else {
        (s, Ok(acc))
    }
}

/// An expression at the `comparison` level.
pub open spec fn spec_comparison(s: PState) -> (PState, Result<ExprV, Seq<u8>>)
    decreases prem(s), 30int,
{
    let (s1, r1) = spec_term(s);
    match r1 {
        Ok(first) => {
            if prem(s1) <= prem(s) {
                spec_comparison_tail(s1, first)
            } else {
                (s1, Err(s_expect_expression()))
            }
        },
        Err(m) => (s1, Err(m)),
    }
}

/// Left-associative chain at the `equality` level.
pub open spec fn spec_equality_tail(s: PState, acc: ExprV) -> (PState, Result<ExprV, Seq<u8>>)
    decreases prem(s), 31int,
{
    if same_kind(speek(s).token_type, TokenTypeV::BangEqual) || same_kind(speek(s).token_type, TokenTypeV::EqualEqual) {
        let op = speek(s).token_type;
        let s1 = padv(s);
        if prem(s1) < prem(s) {
            let (s2, r2) = spec_comparison(s1);
            match r2 {
                Ok(right) => {
                    if prem(s2) < prem(s) {
                        spec_equality_tail(
                            s2,
                            ExprV::Binary {
                                left: Box::new(acc),
                                operator: op,
                                right: Box::new(right),
                            },
                        )
                    } else {
                        (s2, Err(s_expect_expression()))
                    }
                },
                Err(m) => (s2, Err(m)),
            }
        } else {
            (s1, Err(s_expect_expression()))
        }
    } else {
        (s, Ok(acc))
    }
}

/// An expression at the `equality` level.
pub open spec fn spec_equality(s: PState) -> (PState, Result<ExprV, Seq<u8>>)
    decreases prem(s), 32int,
{
    let (s1, r1) = spec_comparison(s);
    match r1 {
        Ok(first) => {
            if prem(s1) <= prem(s) {
                spec_equality_tail(s1, first)
            } else {
                (s1, Err(s_expect_expression()))
            }
        },
        Err(m) => (s1, Err(m)),
    }
}

/// Left-associative chain at the `and_expr` level.
pub open spec fn spec_and_expr_tail(s: PState, acc: ExprV) -> (PState, Result<ExprV, Seq<u8>>)
    decreases prem(s), 33int,
{
    if same_kind(speek(s).token_type, TokenTypeV::And) {
        let op = speek(s).token_type;
        let s1 = padv(s);
        if prem(s1) < prem(s) {
            let (s2, r2) = spec_equality(s1);
            match r2 {
                Ok(right) => {
                    if prem(s2) < prem(s) {
                        spec_and_expr_tail(
                            s2,
                            ExprV::Logical {
                                left: Box::new(acc),
                                operator: op,
                                right: Box::new(right),
                            },
                        )
                    } else {
                        (s2, Err(s_expect_expression()))
                    }
                },
                Err(m) => (s2, Err(m)),
            }
        } else {
            (s1, Err(s_expect_expression()))
        }
    } else {
        (s, Ok(acc))
    }
}

/// An expression at the `and_expr` level.
pub open spec fn spec_and_expr(s: PState) -> (PState, Result<ExprV, Seq<u8>>)
    decreases prem(s), 34int,
{
    let (s1, r1) = spec_equality(s);
    match r1 {
        Ok(first) => {
            if prem(s1) <= prem(s) {
                spec_and_expr_tail(s1, first)
            } else {
                (s1, Err(s_expect_expression()))
            }
        },
        Err(m) => (s1, Err(m)),
    }
}

/// Left-associative chain at the `or_expr` level.
pub open spec fn spec_or_expr_tail(s: PState, acc: ExprV) -> (PState, Result<ExprV, Seq<u8>>)
    decreases prem(s), 35int,
{
    if same_kind(speek(s).token_type, TokenTypeV::Or) {
        let op = speek(s).token_type;
        let s1 = padv(s);
        if prem(s1) < prem(s) {
            let (s2, r2) = spec_and_expr(s1);
            match r2 {
                Ok(right) => {
                    if prem(s2) < prem(s) {
                        spec_or_expr_tail(
                            s2,
                            ExprV::Logical {
                                left: Box::new(acc),
                                operator: op,
                                right: Box::new(right),
                            },
                        )
                    } else {
                        (s2, Err(s_expect_expression()))
                    }
                },
                Err(m) => (s2, Err(m)),
            }
        } else {
            (s1, Err(s_expect_expression()))
        }
    } else {
        (s, Ok(acc))
    }
}

/// An expression at the `or_expr` level.
pub open spec fn spec_or_expr(s: PState) -> (PState, Result<ExprV, Seq<u8>>)
    decreases prem(s), 36int,
{
    let (s1, r1) = spec_and_expr(s);
    match r1 {
        Ok(first) => {
            if prem(s1) <= prem(s) {
                spec_or_expr_tail(s1, first)
            } else {
                (s1, Err(s_expect_expression()))
            }
        },
        Err(m) => (s1, Err(m)),
    }
}

/// An assignment: right-associative, its target a bare variable; any other
/// target is reported, parsing of the right side going on.
pub open spec fn spec_assignment(s: PState) -> (PState, Result<ExprV, Seq<u8>>)
    decreases prem(s), 38int,
{
    let (s1, r1) = spec_or_expr(s);
    match r1 {
        Ok(expr) => {
            if same_kind(speek(s1).token_type, TokenTypeV::Equal) {
                let equals = speek(s1);
                let s2 = padv(s1);
                if prem(s2) < prem(s) {
                    let (s3, r3) = spec_assignment(s2);
                    match r3 {
                        Ok(value) => {
                            match expr {
                                ExprV::Variable { name, id: _ } => (
                                    pbump(s3),
                                    Ok(
                                        ExprV::Assign {
                                            name,
                                            id: s3.next_id,
                                            value: Box::new(value),
                                        },
                                    ),
                                ),
                                _ => (
                                    preport(
                                        s3,
                                        located_text(s_invalid_assignment_target(), equals),
                                    ),
                                    Ok(expr),
                                ),
                            }
                        },
                        Err(m) => (s3, Err(m)),
                    }
                } else {
                    (s2, Err(s_expect_expression()))
                }
            } else {
                (s1, Ok(expr))
            }
        },
        Err(m) => (s1, Err(m)),
    }
}

/// An expression.
pub open spec fn spec_expression(s: PState) -> (PState, Result<ExprV, Seq<u8>>)
    decreases prem(s), 40int,
{
    spec_assignment(s)
}


/// Requires a token of kind `kind`: past it, or a message at it.
pub open spec fn spec_consume(s: PState, kind: TokenTypeV, msg: Seq<u8>) -> (PState, Result<
    TokenV,
    Seq<u8>,
>) {
    if same_kind(speek(s).token_type, kind) {
        (padv(s), Ok(speek(s)))
    } else {
        (s, Err(located_text(msg, speek(s))))
    }
}

/// The closing of a variable declaration: the semicolon, then the node.
pub open spec fn spec_var_finish(s: PState, name: TokenV, init: Option<ExprV>) -> (
    PState,
    Result<StmtV, Seq<u8>>,
) {
    let (s4, r4) = spec_consume(s, TokenTypeV::Semicolon, s_expect_semicolon_after_var());
    match r4 {
        Ok(_) => (s4, Ok(StmtV::VarDecl { name, initializer: init })),
        Err(m) => (s4, Err(m)),
    }
}

/// A variable declaration, after `var`: the name, an optional `=`
/// initializer, the semicolon.
pub open spec fn spec_var_decl(s: PState) -> (PState, Result<StmtV, Seq<u8>>)
    decreases prem(s), 54int,
{
    let (s1, r1) = spec_consume(s, TokenTypeV::Identifier, s_expect_variable_name());
    match r1 {
        Err(m) => (s1, Err(m)),
        Ok(name) => {
            if same_kind(speek(s1).token_type, TokenTypeV::Equal) {
                let s2 = padv(s1);
                if prem(s2) < prem(s) {
                    let (s3, r3) = spec_expression(s2);
                    match r3 {
                        Err(m) => (s3, Err(m)),
                        Ok(init) => spec_var_finish(s3, name, Some(init)),
                    }
                } else {
                    (s2, Err(s_expect_expression()))
                }
            } else {
                spec_var_finish(s1, name, None)
            }
        },
    }
}

/// The comma-separated parameter names of a function declaration; more
/// than 255 are reported but parsing goes on.
pub open spec fn spec_parameters(s: PState, params: Seq<TokenV>) -> (PState, Result<
    Seq<TokenV>,
    Seq<u8>,
>)
    decreases prem(s), 53int,
{
    let s0 = if params.len() >= 255 {
        preport(s, located_text(s_too_many_params(), speek(s)))
    } else {
        s
    };
    let (s1, r1) = spec_consume(s0, TokenTypeV::Identifier, s_expect_param_name());
    match r1 {
        Err(m) => (s1, Err(m)),
        Ok(p) => {
            if same_kind(speek(s1).token_type, TokenTypeV::Comma) {
                let s2 = padv(s1);
                if prem(s2) < prem(s) {
                    spec_parameters(s2, params.push(p))
                } else {
                    (s2, Err(s_expect_expression()))
                }
            } else {
                (s1, Ok(params.push(p)))
            }
        },
    }
}

/// A function declaration, after `fun`: name, parameter list, brace-
/// enclosed body.
pub open spec fn spec_fun_decl(s: PState) -> (PState, Result<StmtV, Seq<u8>>)
    decreases prem(s), 54int,
{
    let (s1, r1) = spec_consume(s, TokenTypeV::Identifier, s_expect_function_name());
    match r1 {
        Err(m) => (s1, Err(m)),
        Ok(name) => {
            let (s2, r2) = spec_consume(
                s1,
                TokenTypeV::LeftParen,
                s_expect_lparen_after_fun_name(),
            );
            match r2 {
                Err(m) => (s2, Err(m)),
                Ok(_) => {
                    let (s3, r3) = if same_kind(
                        speek(s2).token_type,
                        TokenTypeV::RightParen,
                    ) {
                        (s2, Ok(Seq::<TokenV>::empty()))
                    } else {
                        if prem(s2) <= prem(s) {
                            spec_parameters(s2, Seq::empty())
                        } else {
                            (s2, Err(s_expect_expression()))
                        }
                    };
                    match r3 {
                        Err(m) => (s3, Err(m)),
                        Ok(params) => {
                            let (s4, r4) = spec_consume(
                                s3,
                                TokenTypeV::RightParen,
                                s_expect_rparen_after_params(),
                            );
                            match r4 {
                                Err(m) => (s4, Err(m)),
                                Ok(_) => {
                                    let (s5, r5) = spec_consume(
                                        s4,
                                        TokenTypeV::LeftBrace,
                                        s_expect_lbrace_before_body(),
                                    );
                                    match r5 {
                                        Err(m) => (s5, Err(m)),
                                        Ok(_) => {
                                            if prem(s5) < prem(s) {
                                                let (s6, r6) = spec_block_items(
                                                    s5,
                                                    Seq::empty(),
                                                );
                                                match r6 {
                                                    Err(m) => (s6, Err(m)),
                                                    Ok(body) => (
                                                        s6,
                                                        Ok(
                                                            StmtV::FunctionDecl(
                                                                FunctionDeclV {
                                                                    name,
                                                                    params,
                                                                    body,
                                                                },
                                                            ),
                                                        ),
                                                    ),
                                                }
                                            } else {
                                                (s5, Err(s_expect_expression()))
                                            }
                                        },
                                    }
                                },
                            }
                        },
                    }
                },
            }
        },
    }
}

/// The closing brace of a block.
pub open spec fn spec_block_finish(s: PState, acc: Seq<StmtV>) -> (PState, Result<
    Seq<StmtV>,
    Seq<u8>,
>) {
    let (s1, r1) = spec_consume(s, TokenTypeV::RightBrace, s_expect_rbrace_after_block());
    match r1 {
        Ok(_) => (s1, Ok(acc)),
        Err(m) => (s1, Err(m)),
    }
}

/// The declarations of a block, up to its closing brace.
pub open spec fn spec_block_items(s: PState, acc: Seq<StmtV>) -> (PState, Result<
    Seq<StmtV>,
    Seq<u8>,
>)
    decreases prem(s), 60int,
{
    if !same_kind(speek(s).token_type, TokenTypeV::RightBrace) && !at_end(s) {
        let (s1, opt) = spec_declaration(s);
        let acc2 = match opt {
            Some(st) => acc.push(st),
            None => acc,
        };
        if prem(s1) < prem(s) {
            spec_block_items(s1, acc2)
        } else {
            spec_block_finish(s1, acc2)
        }
    } else {
        spec_block_finish(s, acc)
    }
}

/// Whether a statement can begin at this token kind: the
/// resynchronization points.
pub open spec fn starter(t: TokenTypeV) -> bool {
    ||| same_kind(t, TokenTypeV::Class)
    ||| same_kind(t, TokenTypeV::Fun)
    ||| same_kind(t, TokenTypeV::Var)
    ||| same_kind(t, TokenTypeV::For)
    ||| same_kind(t, TokenTypeV::If)
    ||| same_kind(t, TokenTypeV::While)
    ||| same_kind(t, TokenTypeV::Print)
    ||| same_kind(t, TokenTypeV::Return)
}

/// Panic-mode recovery: discard tokens until just past a semicolon or to
/// the next statement keyword.
pub open spec fn spec_sync_loop(s: PState, prev: TokenTypeV) -> PState
    decreases prem(s), 9int,
{
    if at_end(s) {
        s
    } else if same_kind(prev, TokenTypeV::Semicolon) {
        s
    } else if starter(speek(s).token_type) {
        s
    } else {
        let s1 = padv(s);
        if prem(s1) < prem(s) {
            spec_sync_loop(s1, speek(s).token_type)
        } else {
            s1
        }
    }
}

/// Resynchronize after a failed declaration.
pub open spec fn spec_synchronize(s: PState) -> PState
    decreases prem(s), 10int,
{
    spec_sync_loop(padv(s), speek(s).token_type)
}

/// One declaration: a `var` or `fun` declaration or a statement. A
/// failure is reported and recovered from; nothing is produced then.
pub open spec fn spec_declaration(s: PState) -> (PState, Option<StmtV>)
    decreases prem(s), 58int,
{
    let k = speek(s).token_type;
    let (s2, r2) = if same_kind(k, TokenTypeV::Var) {
        let s1 = padv(s);
        if prem(s1) < prem(s) {
            spec_var_decl(s1)
        } else {
            (s1, Err(s_expect_expression()))
        }
    } else if same_kind(k, TokenTypeV::Fun) {
        let s1 = padv(s);
        if prem(s1) < prem(s) {
            spec_fun_decl(s1)
        } else {
            (s1, Err(s_expect_expression()))
        }
    } else {
        spec_statement(s)
    };
    match r2 {
        Ok(st) => (s2, Some(st)),
        Err(m) => {
            let s3 = preport(s2, m);
            if prem(s3) <= prem(s) {
                (spec_synchronize(s3), None)
            } else {
                (s3, None)
            }
        },
    }
}

/// An expression statement.
pub open spec fn spec_expr_stmt(s: PState) -> (PState, Result<StmtV, Seq<u8>>)
    decreases prem(s), 54int,
{
    let (s1, r1) = spec_expression(s);
    match r1 {
        Err(m) => (s1, Err(m)),
        Ok(e) => {
            let (s2, r2) = spec_consume(
                s1,
                TokenTypeV::Semicolon,
                s_expect_semicolon_after_expression(),
            );
            match r2 {
                Ok(_) => (s2, Ok(StmtV::Expression(e))),
                Err(m) => (s2, Err(m)),
            }
        },
    }
}

/// A print statement, after `print`.
pub open spec fn spec_print_stmt(s: PState) -> (PState, Result<StmtV, Seq<u8>>)
    decreases prem(s), 55int,
{
    let (s1, r1) = spec_expression(s);
    match r1 {
        Err(m) => (s1, Err(m)),
        Ok(e) => {
            let (s2, r2) = spec_consume(
                s1,
                TokenTypeV::Semicolon,
                s_expect_semicolon_after_value(),
            );
            match r2 {
                Ok(_) => (s2, Ok(StmtV::Print(e))),
                Err(m) => (s2, Err(m)),
            }
        },
    }
}

/// A return statement, after `return` (which is `keyword`).
pub open spec fn spec_return_stmt(s: PState, keyword: TokenV) -> (PState, Result<
    StmtV,
    Seq<u8>,
>)
    decreases prem(s), 55int,
{
    if !same_kind(speek(s).token_type, TokenTypeV::Semicolon) {
        let (s1, r1) = spec_expression(s);
        match r1 {
            Err(m) => (s1, Err(m)),
            Ok(v) => {
                let (s2, r2) = spec_consume(
                    s1,
                    TokenTypeV::Semicolon,
                    s_expect_semicolon_after_return(),
                );
                match r2 {
                    Ok(_) => (s2, Ok(StmtV::Return { keyword, value: Some(v) })),
                    Err(m) => (s2, Err(m)),
                }
            },
        }
    } else {
        let (s2, r2) = spec_consume(
            s,
            TokenTypeV::Semicolon,
            s_expect_semicolon_after_return(),
        );
        match r2 {
            Ok(_) => (s2, Ok(StmtV::Return { keyword, value: None })),
            Err(m) => (s2, Err(m)),
        }
    }
}

/// An if statement, after `if`.
pub open spec fn spec_if_stmt(s: PState) -> (PState, Result<StmtV, Seq<u8>>)
    decreases prem(s), 55int,
{
    let (s1, r1) = spec_consume(s, TokenTypeV::LeftParen, s_expect_lparen_after_if());
    match r1 {
        Err(m) => (s1, Err(m)),
        Ok(_) => {
            let (s2, r2) = spec_expression(s1);
            match r2 {
                Err(m) => (s2, Err(m)),
                Ok(cond) => {
                    let (s3, r3) = spec_consume(
                        s2,
                        TokenTypeV::RightParen,
                        s_expect_rparen_after_cond(),
                    );
                    match r3 {
                        Err(m) => (s3, Err(m)),
                        Ok(_) => {
                            if prem(s3) < prem(s) {
                                let (s4, r4) = spec_statement(s3);
                                match r4 {
                                    Err(m) => (s4, Err(m)),
                                    Ok(then_branch) => {
                                        if same_kind(
                                            speek(s4).token_type,
                                            TokenTypeV::Else,
                                        ) {
                                            let s5 = padv(s4);
                                            if prem(s5) < prem(s) {
                                                let (s6, r6) = spec_statement(s5);
                                                match r6 {
                                                    Err(m) => (s6, Err(m)),
                                                    Ok(else_branch) => (
                                                        s6,
                                                        Ok(
                                                            StmtV::If {
                                                                condition: cond,
                                                                then_branch: Box::new(
                                                                    then_branch,
                                                                ),
                                                                else_branch: Some(
                                                                    Box::new(else_branch),
                                                                ),
                                                            },
                                                        ),
                                                    ),
                                                }
                                            } else {
                                                (s5, Err(s_expect_expression()))
                                            }
                                        } else {
                                            (
                                                s4,
                                                Ok(
                                                    StmtV::If {
                                                        condition: cond,
                                                        then_branch: Box::new(then_branch),
                                                        else_branch: None,
                                                    },
                                                ),
                                            )
                                        }
                                    },
                                }
                            } else {
                                (s3, Err(s_expect_expression()))
                            }
                        },
                    }
                },
            }
        },
    }
}

/// A while statement, after `while`.
pub open spec fn spec_while_stmt(s: PState) -> (PState, Result<StmtV, Seq<u8>>)
    decreases prem(s), 55int,
{
    let (s1, r1) = spec_consume(s, TokenTypeV::LeftParen, s_expect_lparen_after_while());
    match r1 {
        Err(m) => (s1, Err(m)),
        Ok(_) => {
            let (s2, r2) = spec_expression(s1);
            match r2 {
                Err(m) => (s2, Err(m)),
                Ok(cond) => {
                    let (s3, r3) = spec_consume(
                        s2,
                        TokenTypeV::RightParen,
                        s_expect_rparen_after_cond(),
                    );
                    match r3 {
                        Err(m) => (s3, Err(m)),
                        Ok(_) => {
                            if prem(s3) < prem(s) {
                                let (s4, r4) = spec_statement(s3);
                                match r4 {
                                    Err(m) => (s4, Err(m)),
                                    Ok(body) => (
                                        s4,
                                        Ok(
                                            StmtV::While {
                                                condition: cond,
                                                body: Box::new(body),
                                            },
                                        ),
                                    ),
                                }
                            } else {
                                (s3, Err(s_expect_expression()))
                            }
                        },
                    }
                },
            }
        },
    }
}

/// A for statement, after `for`: desugared here into a while statement,
/// the initializer scoped by an enclosing block and the increment by a
/// block around the body.
pub open spec fn spec_for_stmt(s: PState) -> (PState, Result<StmtV, Seq<u8>>)
    decreases prem(s), 55int,
{
    let (s1, r1) = spec_consume(s, TokenTypeV::LeftParen, s_expect_lparen_after_for());
    match r1 {
        Err(m) => (s1, Err(m)),
        Ok(_) => {
            let (s2, r2) = if same_kind(speek(s1).token_type, TokenTypeV::Semicolon) {
                (padv(s1), Ok(None))
            } else if same_kind(speek(s1).token_type, TokenTypeV::Var) {
                let sv = padv(s1);
                if prem(sv) < prem(s) {
                    let (sx, rx) = spec_var_decl(sv);
                    match rx {
                        Ok(st) => (sx, Ok(Some(st))),
                        Err(m) => (sx, Err(m)),
                    }
                } else {
                    (sv, Err(s_expect_expression()))
                }
            } else {
                if prem(s1) < prem(s) {
                    let (sx, rx) = spec_expr_stmt(s1);
                    match rx {
                        Ok(st) => (sx, Ok(Some(st))),
                        Err(m) => (sx, Err(m)),
                    }
                } else {
                    (s1, Err(s_expect_expression()))
                }
            };
            match r2 {
                Err(m) => (s2, Err(m)),
                Ok(initializer) => {
                    let (s3, r3) = if same_kind(
                        speek(s2).token_type,
                        TokenTypeV::Semicolon,
                    ) {
                        (s2, Ok(ExprV::Literal(LiteralV::True)))
                    } else {
                        if prem(s2) < prem(s) {
                            spec_expression(s2)
                        } else {
                            (s2, Err(s_expect_expression()))
                        }
                    };
                    match r3 {
                        Err(m) => (s3, Err(m)),
                        Ok(cond) => {
                            let (s4, r4) = spec_consume(
                                s3,
                                TokenTypeV::Semicolon,
                                s_expect_semicolon_after_loop_cond(),
                            );
                            match r4 {
                                Err(m) => (s4, Err(m)),
                                Ok(_) => {
                                    let (s5, r5) = if same_kind(
                                        speek(s4).token_type,
                                        TokenTypeV::RightParen,
                                    ) {
                                        (s4, Ok(None))
                                    } else {
                                        if prem(s4) < prem(s) {
                                            let (sx, rx) = spec_expression(s4);
                                            match rx {
                                                Ok(e) => (sx, Ok(Some(e))),
                                                Err(m) => (sx, Err(m)),
                                            }
                                        } else {
                                            (s4, Err(s_expect_expression()))
                                        }
                                    };
                                    match r5 {
                                        Err(m) => (s5, Err(m)),
                                        Ok(increment) => {
                                            let (s6, r6) = spec_consume(
                                                s5,
                                                TokenTypeV::RightParen,
                                                s_expect_rparen_after_for(),
                                            );
                                            match r6 {
                                                Err(m) => (s6, Err(m)),
                                                Ok(_) => {
                                                    if prem(s6) < prem(s) {
                                                        let (s7, r7) = spec_statement(s6);
                                                        match r7 {
                                                            Err(m) => (s7, Err(m)),
                                                            Ok(body) => (
                                                                s7,
                                                                Ok(
                                                                    desugar_for(
                                                                        initializer,
                                                                        cond,
                                                                        increment,
                                                                        body,
                                                                    ),
                                                                ),
                                                            ),
                                                        }
                                                    } else {
                                                        (s6, Err(s_expect_expression()))
                                                    }
                                                },
                                            }
                                        },
                                    }
                                },
                            }
                        },
                    }
                },
            }
        },
    }
}

/// The while form a for statement denotes.
pub open spec fn desugar_for(
    initializer: Option<StmtV>,
    cond: ExprV,
    increment: Option<ExprV>,
    body: StmtV,
) -> StmtV {
    let body1 = match increment {
        Some(inc) => StmtV::Block(seq![body, StmtV::Expression(inc)]),
        None => body,
    };
    let body2 = StmtV::While { condition: cond, body: Box::new(body1) };
    match initializer {
        Some(init) => StmtV::Block(seq![init, body2]),
        None => body2,
    }
}

/// One statement.
pub open spec fn spec_statement(s: PState) -> (PState, Result<StmtV, Seq<u8>>)
    decreases prem(s), 56int,
{
    let k = speek(s).token_type;
    if same_kind(k, TokenTypeV::For) {
        let s1 = padv(s);
        if prem(s1) < prem(s) {
            spec_for_stmt(s1)
        } else {
            (s1, Err(s_expect_expression()))
        }
    } else if same_kind(k, TokenTypeV::If) {
        let s1 = padv(s);
        if prem(s1) < prem(s) {
            spec_if_stmt(s1)
        } else {
            (s1, Err(s_expect_expression()))
        }
    } else if same_kind(k, TokenTypeV::LeftBrace) {
        let s1 = padv(s);
        if prem(s1) < prem(s) {
            let (s2, r2) = spec_block_items(s1, Seq::empty());
            match r2 {
                Ok(stmts) => (s2, Ok(StmtV::Block(stmts))),
                Err(m) => (s2, Err(m)),
            }
        } else {
            (s1, Err(s_expect_expression()))
        }
    } else if same_kind(k, TokenTypeV::Print) {
        let s1 = padv(s);
        if prem(s1) < prem(s) {
            spec_print_stmt(s1)
        } else {
            (s1, Err(s_expect_expression()))
        }
    } else if same_kind(k, TokenTypeV::Return) {
        let kw = speek(s);
        let s1 = padv(s);
        if prem(s1) < prem(s) {
            spec_return_stmt(s1, kw)
        } else {
            (s1, Err(s_expect_expression()))
        }
    } else if same_kind(k, TokenTypeV::While) {
        let s1 = padv(s);
        if prem(s1) < prem(s) {
            spec_while_stmt(s1)
        } else {
            (s1, Err(s_expect_expression()))
        }
    } else {
        spec_expr_stmt(s)
    }
}

/// The program's declarations, in order, errors recovered.
pub open spec fn spec_parse_items(s: PState, acc: Seq<StmtV>) -> (PState, Seq<StmtV>)
    decreases prem(s), 62int,
{
    if at_end(s) {
        (s, acc)
    } else {
        let (s1, opt) = spec_declaration(s);
        let acc2 = match opt {
            Some(st) => acc.push(st),
            None => acc,
        };
        if prem(s1) < prem(s) {
            spec_parse_items(s1, acc2)
        } else {
            (s1, acc2)
        }
    }
}

/// A whole program.
pub open spec fn spec_parse(s: PState) -> (PState, Seq<StmtV>) {
    spec_parse_items(s, Seq::empty())
}








/// A token stream already at its end-of-file token parses to no
/// statements, the state untouched: the empty program is not an error at
/// this level (the original driver rejects a wholly empty token list
/// before ever building a parser).
pub proof fn lemma_parse_at_end(s: PState)
    requires
        at_end(s),
    ensures
        spec_parse(s) == (s, Seq::<StmtV>::empty()),
{
}

} // verus!
