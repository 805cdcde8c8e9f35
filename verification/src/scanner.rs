//! The scanner: source bytes to tokens.
//!
//! Identifiers are ASCII letters followed by ASCII letters and digits;
//! string literals are double-quoted, may span newlines and have no escape
//! sequences; number literals are decimal, an interior dot requiring a
//! digit on each side; `//` starts a comment running to the end of the
//! line. Lines count from 1, columns from 0, both advancing per byte
//! consumed (and saturating rather than wrapping). `spec_scan` says exactly
//! which tokens (or which error) a given input yields; `scan_tokens` is
//! proved to return just that.

use vstd::prelude::*;
use crate::token::{Token, TokenV, TokenType, TokenTypeV, spec_keyword, keyword};
use crate::number::{decimal_bits, parse_number};
use crate::text::{s_unterminated_string, t_unterminated_string, s_unknown_character,
    t_unknown_character, dec_digits, u64_to_dec, append_bytes};

verus! {

/// An error that stops scanning.
pub enum ScanError {
    /// A byte no token can start with.
    UnknownCharacter(u8),
    /// A string literal still open at the end of the input; the line held
    /// is the line the input ends on.
    UnterminatedString(usize),
}

/// Mathematical image of a `ScanError`.
#[verifier::ext_equal]
pub ghost enum ScanErrorV {
    UnknownCharacter(u8),
    UnterminatedString(usize),
}

impl View for ScanError {
    type V = ScanErrorV;

    open spec fn view(&self) -> ScanErrorV {
        match self {
            ScanError::UnknownCharacter(c) => ScanErrorV::UnknownCharacter(*c),
            ScanError::UnterminatedString(l) => ScanErrorV::UnterminatedString(*l),
        }
    }
}

/// The message of a scan error.
pub open spec fn scan_error_text(e: ScanErrorV) -> Seq<u8> {
    match e {
        ScanErrorV::UnknownCharacter(c) => s_unknown_character().push(c),
        ScanErrorV::UnterminatedString(l) => s_unterminated_string() + dec_digits(l as nat),
    }
}

impl ScanError {
    /// Renders the message of this error.
    pub fn message(&self) -> (r: Vec<u8>)
        ensures
            r@ == scan_error_text(self@),
    {
        match self {
            ScanError::UnknownCharacter(c) => {
                let mut r = t_unknown_character();
                r.push(*c);
                r
            },
            ScanError::UnterminatedString(l) => {
                let mut r = t_unterminated_string();
                let d = u64_to_dec(*l as u64);
                append_bytes(&mut r, &d);
                r
            },
        }
    }
}

/// An ASCII decimal digit.
pub open spec fn is_digit(c: u8) -> bool {
    48 <= c <= 57
}

/// An ASCII letter.
pub open spec fn is_alpha(c: u8) -> bool {
    (65 <= c <= 90) || (97 <= c <= 122)
}

/// A letter or digit.
pub open spec fn is_alnum(c: u8) -> bool {
    is_digit(c) || is_alpha(c)
}

/// The next line number: lines saturate rather than wrap.
pub open spec fn bump_line(line: usize) -> usize {
    if line < usize::MAX {
        (line + 1) as usize
    } else {
        line
    }
}

/// The next column number: columns saturate rather than wrap.
pub open spec fn bump_col(col: u32) -> u32 {
    if col < u32::MAX {
        (col + 1) as u32
    } else {
        col
    }
}

/// The position after consuming the byte `c`.
pub open spec fn adv(line: usize, col: u32, c: u8) -> (usize, u32) {
    if c == 10 {
        (bump_line(line), 0u32)
    } else {
        (line, bump_col(col))
    }
}

/// The position after consuming the bytes of `input` from `from` to `to`.
pub open spec fn advance_over(input: Seq<u8>, from: int, to: int, line: usize, col: u32) -> (
    usize,
    u32,
)
    decreases to - from,
{
    if from < to && 0 <= from < input.len() {
        let (l2, c2) = adv(line, col, input[from]);
        advance_over(input, from + 1, to, l2, c2)
    } else {
        (line, col)
    }
}

/// Consuming one more byte advances by that byte.
pub proof fn lemma_advance_over_step(input: Seq<u8>, from: int, to: int, line: usize, col: u32)
    requires
        0 <= from <= to,
        to < input.len(),
    ensures
        advance_over(input, from, to + 1, line, col) == ({
            let (l2, c2) = advance_over(input, from, to, line, col);
            adv(l2, c2, input[to])
        }),
    decreases to - from,
{
    if from < to {
        let (l2, c2) = adv(line, col, input[from]);
        lemma_advance_over_step(input, from + 1, to, l2, c2);
    } else {
        let (l2, c2) = adv(line, col, input[to]);
        assert(advance_over(input, to + 1, to + 1, l2, c2) == (l2, c2));
    }
}

/// The first position at or after `p` whose byte is not a digit.
pub open spec fn digits_end(input: Seq<u8>, p: int) -> int
    decreases input.len() - p,
{
    if 0 <= p < input.len() && is_digit(input[p]) {
        digits_end(input, p + 1)
    } else {
        p
    }
}

/// `digits_end` stays in range and does not move backwards.
pub proof fn lemma_digits_end(input: Seq<u8>, p: int)
    requires
        0 <= p <= input.len(),
    ensures
        p <= digits_end(input, p) <= input.len(),
    decreases input.len() - p,
{
    if 0 <= p < input.len() && is_digit(input[p]) {
        lemma_digits_end(input, p + 1);
    }
}

/// The first position at or after `p` whose byte is not a letter or digit.
pub open spec fn alnum_end(input: Seq<u8>, p: int) -> int
    decreases input.len() - p,
{
    if 0 <= p < input.len() && is_alnum(input[p]) {
        alnum_end(input, p + 1)
    } else {
        p
    }
}

/// `alnum_end` stays in range and does not move backwards.
pub proof fn lemma_alnum_end(input: Seq<u8>, p: int)
    requires
        0 <= p <= input.len(),
    ensures
        p <= alnum_end(input, p) <= input.len(),
    decreases input.len() - p,
{
    if 0 <= p < input.len() && is_alnum(input[p]) {
        lemma_alnum_end(input, p + 1);
    }
}

/// The position of the closing quote at or after `p`, or -1 if the input
/// ends first.
pub open spec fn string_end(input: Seq<u8>, p: int) -> int
    decreases input.len() - p,
{
    if 0 <= p < input.len() {
        if input[p] == 34 {
            p
        } else {
            string_end(input, p + 1)
        }
    } else {
        -1
    }
}

/// `string_end` finds a quote at or after `p`, in range, or reports none.
pub proof fn lemma_string_end(input: Seq<u8>, p: int)
    requires
        0 <= p <= input.len(),
    ensures
        string_end(input, p) == -1 || (p <= string_end(input, p) < input.len()
            && input[string_end(input, p)] == 34),
    decreases input.len() - p,
{
    if 0 <= p < input.len() && input[p] != 34 {
        lemma_string_end(input, p + 1);
    }
}

/// The position of the next newline at or after `p`, or the input's end.
pub open spec fn line_comment_end(input: Seq<u8>, p: int) -> int
    decreases input.len() - p,
{
    if 0 <= p < input.len() {
        if input[p] == 10 {
            p
        } else {
            line_comment_end(input, p + 1)
        }
    } else {
        input.len() as int
    }
}

/// `line_comment_end` stays in range and does not move backwards.
pub proof fn lemma_line_comment_end(input: Seq<u8>, p: int)
    requires
        0 <= p <= input.len(),
    ensures
        p <= line_comment_end(input, p) <= input.len(),
    decreases input.len() - p,
{
    if 0 <= p < input.len() && input[p] != 10 {
        lemma_line_comment_end(input, p + 1);
    }
}

/// One scanning step: the token produced (if any), or the error, and the
/// position after it.
#[verifier::ext_equal]
pub ghost enum StepV {
    /// A token, the input position after it, and the line and column after
    /// it.
    Tok(TokenV, int, usize, u32),
    /// Nothing produced (whitespace or a comment); position after it.
    Skip(int, usize, u32),
    /// Scanning fails.
    Fail(ScanErrorV),
}

/// A single-byte token's kind, if the byte makes one by itself.
pub open spec fn single_kind(c: u8) -> Option<TokenTypeV> {
    if c == 40 {
        Some(TokenTypeV::LeftParen)
    } else if c == 41 {
        Some(TokenTypeV::RightParen)
    } else if c == 123 {
        Some(TokenTypeV::LeftBrace)
    } else if c == 125 {
        Some(TokenTypeV::RightBrace)
    } else if c == 91 {
        Some(TokenTypeV::LeftBracket)
    } else if c == 93 {
        Some(TokenTypeV::RightBracket)
    } else if c == 44 {
        Some(TokenTypeV::Comma)
    } else if c == 46 {
        Some(TokenTypeV::Dot)
    } else if c == 45 {
        Some(TokenTypeV::Minus)
    } else if c == 43 {
        Some(TokenTypeV::Plus)
    } else if c == 59 {
        Some(TokenTypeV::Semicolon)
    } else if c == 42 {
        Some(TokenTypeV::Star)
    } else {
        None
    }
}

/// The kinds of an operator that may pair with a following `=`: alone, and
/// with it.
pub open spec fn pair_kinds(c: u8) -> Option<(TokenTypeV, TokenTypeV)> {
    if c == 33 {
        Some((TokenTypeV::Bang, TokenTypeV::BangEqual))
    } else if c == 61 {
        Some((TokenTypeV::Equal, TokenTypeV::EqualEqual))
    } else if c == 60 {
        Some((TokenTypeV::Less, TokenTypeV::LessEqual))
    } else if c == 62 {
        Some((TokenTypeV::Greater, TokenTypeV::GreaterEqual))
    } else {
        None
    }
}

/// What scanning does at position `pos`.
pub open spec fn spec_step(input: Seq<u8>, pos: int, line: usize, col: u32) -> StepV {
    let c = input[pos];
    if single_kind(c) is Some {
        let (l2, c2) = adv(line, col, c);
        StepV::Tok(
            TokenV {
                token_type: single_kind(c)->Some_0,
                lexeme: input.subrange(pos, pos + 1),
                line: l2,
                col: c2,
            },
            pos + 1,
            l2,
            c2,
        )
    } else if pair_kinds(c) is Some {
        let (alone, with_eq) = pair_kinds(c)->Some_0;
        if pos + 1 < input.len() && input[pos + 1] == 61 {
            let (l2, c2) = advance_over(input, pos, pos + 2, line, col);
            StepV::Tok(
                TokenV {
                    token_type: with_eq,
                    lexeme: input.subrange(pos, pos + 2),
                    line: l2,
                    col: c2,
                },
                pos + 2,
                l2,
                c2,
            )
        } else {
            let (l2, c2) = adv(line, col, c);
            StepV::Tok(
                TokenV {
                    token_type: alone,
                    lexeme: input.subrange(pos, pos + 1),
                    line: l2,
                    col: c2,
                },
                pos + 1,
                l2,
                c2,
            )
        }
    } else if c == 47 {
        if pos + 1 < input.len() && input[pos + 1] == 47 {
            let e = line_comment_end(input, pos + 2);
            let (l2, c2) = advance_over(input, pos, e, line, col);
            StepV::Skip(e, l2, c2)
        } else {
            let (l2, c2) = adv(line, col, c);
            StepV::Tok(
                TokenV {
                    token_type: TokenTypeV::Slash,
                    lexeme: input.subrange(pos, pos + 1),
                    line: l2,
                    col: c2,
                },
                pos + 1,
                l2,
                c2,
            )
        }
    } else if c == 32 || c == 13 || c == 9 || c == 10 {
        let (l2, c2) = adv(line, col, c);
        StepV::Skip(pos + 1, l2, c2)
    } else if c == 34 {
        let e = string_end(input, pos + 1);
        if e < 0 {
            let (l2, c2) = advance_over(input, pos, input.len() as int, line, col);
            StepV::Fail(ScanErrorV::UnterminatedString(l2))
        } else {
            let (l2, c2) = advance_over(input, pos, e + 1, line, col);
            StepV::Tok(
                TokenV {
                    token_type: TokenTypeV::Str(input.subrange(pos + 1, e)),
                    lexeme: input.subrange(pos, e + 1),
                    line: l2,
                    col: c2,
                },
                e + 1,
                l2,
                c2,
            )
        }
    } else if is_digit(c) {
        let d = digits_end(input, pos);
        let e = if d + 1 < input.len() && input[d] == 46 && is_digit(input[d + 1]) {
            digits_end(input, d + 1)
        } else {
            d
        };
        let (l2, c2) = advance_over(input, pos, e, line, col);
        StepV::Tok(
            TokenV {
                token_type: TokenTypeV::Number(decimal_bits(input.subrange(pos, e))),
                lexeme: input.subrange(pos, e),
                line: l2,
                col: c2,
            },
            e,
            l2,
            c2,
        )
    } else if is_alpha(c) {
        let e = alnum_end(input, pos);
        let lex = input.subrange(pos, e);
        let kind = match spec_keyword(lex) {
            Some(k) => k,
            None => TokenTypeV::Identifier,
        };
        let (l2, c2) = advance_over(input, pos, e, line, col);
        StepV::Tok(TokenV { token_type: kind, lexeme: lex, line: l2, col: c2 }, e, l2, c2)
    } else {
        StepV::Fail(ScanErrorV::UnknownCharacter(c))
    }
}

/// The tokens of `input` from position `pos` on, ending with the
/// end-of-file token.
pub open spec fn spec_scan_from(input: Seq<u8>, pos: int, line: usize, col: u32) -> Result<
    Seq<TokenV>,
    ScanErrorV,
>
    decreases input.len() - pos,
{
    if !(0 <= pos < input.len()) {
        Ok(
            seq![
                TokenV { token_type: TokenTypeV::Eof, lexeme: Seq::empty(), line, col },
            ],
        )
    } else {
        match spec_step(input, pos, line, col) {
            StepV::Tok(t, p2, l2, c2) => {
                if pos < p2 <= input.len() {
                    match spec_scan_from(input, p2, l2, c2) {
                        Ok(ts) => Ok(seq![t] + ts),
                        Err(e) => Err(e),
                    }
                } else {
                    Err(ScanErrorV::UnknownCharacter(input[pos]))
                }
            },
            StepV::Skip(p2, l2, c2) => {
                if pos < p2 <= input.len() {
                    spec_scan_from(input, p2, l2, c2)
                } else {
                    Err(ScanErrorV::UnknownCharacter(input[pos]))
                }
            },
            StepV::Fail(e) => Err(e),
        }
    }
}

/// The tokens of `input`: what `scan_tokens` returns.
pub open spec fn spec_scan(input: Seq<u8>) -> Result<Seq<TokenV>, ScanErrorV> {
    spec_scan_from(input, 0, 1, 0)
}

/// Prefixes already-scanned tokens to the outcome of scanning the rest.
pub open spec fn prepend_tokens(prefix: Seq<TokenV>, rest: Result<Seq<TokenV>, ScanErrorV>)
    -> Result<Seq<TokenV>, ScanErrorV> {
    match rest {
        Ok(ts) => Ok(prefix + ts),
        Err(e) => Err(e),
    }
}

/// Advances the line/column pair over one byte.
fn advance_pos(line: &mut usize, col: &mut u32, c: u8)
    ensures
        (*final(line), *final(col)) == adv(*old(line), *old(col), c),
{
    if c == 10 {
        if *line < usize::MAX {
            *line = *line + 1;
        }
        *col = 0;
    } else {
        if *col < u32::MAX {
            *col = *col + 1;
        }
    }
}


/// Copies the bytes of `v` from `from` to `to`.
pub fn copy_range(v: &Vec<u8>, from: usize, to: usize) -> (r: Vec<u8>)
    requires
        from <= to <= v@.len(),
    ensures
        r@ == v@.subrange(from as int, to as int),
{
    let mut r: Vec<u8> = Vec::new();
    let mut i: usize = from;
    while i < to
        invariant
            from <= i <= to <= v@.len(),
            r@ == v@.subrange(from as int, i as int),
        decreases to - i,
    {
        r.push(v[i]);
        proof {
            assert(r@ =~= v@.subrange(from as int, i + 1 as int));
        }
        i += 1;
    }
    r
}

/// Advances the position over the bytes from `from` to `to`.
#[verifier::loop_isolation(false)]
fn advance_range(input: &Vec<u8>, from: usize, to: usize, line: &mut usize, col: &mut u32)
    requires
        from <= to <= input@.len(),
    ensures
        (*final(line), *final(col)) == advance_over(
            input@,
            from as int,
            to as int,
            *old(line),
            *old(col),
        ),
{
    let mut i: usize = from;
    proof {
        assert(advance_over(input@, from as int, from as int, *old(line), *old(col)) == (
            *old(line),
            *old(col),
        ));
    }
    while i < to
        invariant
            from <= i <= to,
            (*line, *col) == advance_over(input@, from as int, i as int, *old(line), *old(col)),
        decreases to - i,
    {
        proof {
            lemma_advance_over_step(input@, from as int, i as int, *old(line), *old(col));
        }
        advance_pos(line, col, input[i]);
        i += 1;
    }
}

/// The single-byte token kind of `c`, if any.
fn single_token_kind(c: u8) -> (r: Option<TokenType>)
    ensures
        match r {
            Some(k) => single_kind(c) == Some(k@),
            None => single_kind(c) is None,
        },
{
    if c == 40 {
        Some(TokenType::LeftParen)
    } else if c == 41 {
        Some(TokenType::RightParen)
    } else if c == 123 {
        Some(TokenType::LeftBrace)
    } else if c == 125 {
        Some(TokenType::RightBrace)
    } else if c == 91 {
        Some(TokenType::LeftBracket)
    } else if c == 93 {
        Some(TokenType::RightBracket)
    } else if c == 44 {
        Some(TokenType::Comma)
    } else if c == 46 {
        Some(TokenType::Dot)
    } else if c == 45 {
        Some(TokenType::Minus)
    } else if c == 43 {
        Some(TokenType::Plus)
    } else if c == 59 {
        Some(TokenType::Semicolon)
    } else if c == 42 {
        Some(TokenType::Star)
    } else {
        None
    }
}

/// The one- and two-byte kinds of an operator that may pair with `=`.
fn pair_token_kinds(c: u8) -> (r: Option<(TokenType, TokenType)>)
    ensures
        match r {
            Some(ks) => pair_kinds(c) == Some((ks.0@, ks.1@)),
            None => pair_kinds(c) is None,
        },
{
    if c == 33 {
        Some((TokenType::Bang, TokenType::BangEqual))
    } else if c == 61 {
        Some((TokenType::Equal, TokenType::EqualEqual))
    } else if c == 60 {
        Some((TokenType::Less, TokenType::LessEqual))
    } else if c == 62 {
        Some((TokenType::Greater, TokenType::GreaterEqual))
    } else {
        None
    }
}

/// The executable counterpart of `digits_end`.
#[verifier::loop_isolation(false)]
fn find_digits_end(input: &Vec<u8>, from: usize) -> (r: usize)
    requires
        from <= input@.len(),
    ensures
        r == digits_end(input@, from as int),
        from <= r <= input@.len(),
{
    let n = input.len();
    let mut i: usize = from;
    while i < n && 48 <= input[i] && input[i] <= 57
        invariant
            from <= i <= n,
            digits_end(input@, from as int) == digits_end(input@, i as int),
        decreases n - i,
    {
        i += 1;
    }
    proof {
        assert(digits_end(input@, i as int) == i);
    }
    i
}

/// The executable counterpart of `alnum_end`.
#[verifier::loop_isolation(false)]
fn find_alnum_end(input: &Vec<u8>, from: usize) -> (r: usize)
    requires
        from <= input@.len(),
    ensures
        r == alnum_end(input@, from as int),
        from <= r <= input@.len(),
{
    let n = input.len();
    let mut i: usize = from;
    while i < n && ((48 <= input[i] && input[i] <= 57) || (65 <= input[i] && input[i] <= 90) || (
    97 <= input[i] && input[i] <= 122))
        invariant
            from <= i <= n,
            alnum_end(input@, from as int) == alnum_end(input@, i as int),
        decreases n - i,
    {
        i += 1;
    }
    proof {
        assert(alnum_end(input@, i as int) == i);
    }
    i
}

/// The executable counterpart of `string_end`.
#[verifier::loop_isolation(false)]
fn find_string_end(input: &Vec<u8>, from: usize) -> (r: Option<usize>)
    requires
        from <= input@.len(),
    ensures
        match r {
            Some(e) => string_end(input@, from as int) == e && from <= e < input@.len(),
            None => string_end(input@, from as int) == -1,
        },
{
    let n = input.len();
    let mut i: usize = from;
    while i < n && input[i] != 34
        invariant
            from <= i <= n,
            string_end(input@, from as int) == string_end(input@, i as int),
        decreases n - i,
    {
        i += 1;
    }
    if i < n {
        Some(i)
    } else {
        None
    }
}

/// The executable counterpart of `line_comment_end`.
#[verifier::loop_isolation(false)]
fn find_comment_end(input: &Vec<u8>, from: usize) -> (r: usize)
    requires
        from <= input@.len(),
    ensures
        r == line_comment_end(input@, from as int),
        from <= r <= input@.len(),
{
    let n = input.len();
    let mut i: usize = from;
    while i < n && input[i] != 10
        invariant
            from <= i <= n,
            line_comment_end(input@, from as int) == line_comment_end(input@, i as int),
        decreases n - i,
    {
        i += 1;
    }
    proof {
        assert(line_comment_end(input@, i as int) == i);
    }
    i
}

/// A token step extends the scanned prefix.
proof fn lemma_scan_push(
    input: Seq<u8>,
    prefix: Seq<TokenV>,
    pos: int,
    line: usize,
    col: u32,
    t: TokenV,
    p2: int,
    l2: usize,
    c2: u32,
)
    requires
        0 <= pos < input.len(),
        spec_step(input, pos, line, col) == StepV::Tok(t, p2, l2, c2),
        pos < p2 <= input.len(),
        prepend_tokens(prefix, spec_scan_from(input, pos, line, col)) == spec_scan(input),
    ensures
        prepend_tokens(prefix.push(t), spec_scan_from(input, p2, l2, c2)) == spec_scan(input),
{
    let rest = spec_scan_from(input, p2, l2, c2);
    match rest {
        Ok(ts) => {
            assert(prefix + (seq![t] + ts) =~= prefix.push(t) + ts);
        },
        Err(_) => {},
    }
}

/// A skipping step leaves the scanned prefix.
proof fn lemma_scan_skip(
    input: Seq<u8>,
    prefix: Seq<TokenV>,
    pos: int,
    line: usize,
    col: u32,
    p2: int,
    l2: usize,
    c2: u32,
)
    requires
        0 <= pos < input.len(),
        spec_step(input, pos, line, col) == StepV::Skip(p2, l2, c2),
        pos < p2 <= input.len(),
        prepend_tokens(prefix, spec_scan_from(input, pos, line, col)) == spec_scan(input),
    ensures
        prepend_tokens(prefix, spec_scan_from(input, p2, l2, c2)) == spec_scan(input),
{
}

/// A failing step decides the whole scan.
proof fn lemma_scan_fail(
    input: Seq<u8>,
    prefix: Seq<TokenV>,
    pos: int,
    line: usize,
    col: u32,
    e: ScanErrorV,
)
    requires
        0 <= pos < input.len(),
        spec_step(input, pos, line, col) == StepV::Fail(e),
        prepend_tokens(prefix, spec_scan_from(input, pos, line, col)) == spec_scan(input),
    ensures
        spec_scan(input) == Err::<Seq<TokenV>, ScanErrorV>(e),
{
}

/// Scans the whole input into tokens, the end-of-file token last, or
/// reports the first scanning error: exactly what `spec_scan` says.
#[verifier::loop_isolation(false)]
pub fn scan_tokens(input: &Vec<u8>) -> (r: Result<Vec<Token>, ScanError>)
    ensures
        ({
            let res = spec_scan(input@);
            match (r, res) {
                (Ok(ts), Ok(tv)) => crate::ast::tokens_view(ts@) == tv,
                (Err(a), Err(b)) => a@ == b,
                _ => false,
            }
        }),
{
    let n = input.len();
    let mut tokens: Vec<Token> = Vec::new();
    let mut pos: usize = 0;
    let mut line: usize = 1;
    let mut col: u32 = 0;
    proof {
        assert(crate::ast::tokens_view(tokens@) =~= Seq::<TokenV>::empty());
        let res0 = spec_scan_from(input@, 0, 1, 0);
        match res0 {
            Ok(ts) => {
                assert(Seq::<TokenV>::empty() + ts =~= ts);
            },
            Err(_) => {},
        }
        assert(prepend_tokens(
            crate::ast::tokens_view(tokens@),
            spec_scan_from(input@, pos as int, line, col),
        ) == spec_scan(input@));
    }
    while pos < n
        invariant
            n == input@.len(),
            pos <= n,
            prepend_tokens(
                crate::ast::tokens_view(tokens@),
                spec_scan_from(input@, pos as int, line, col),
            ) == spec_scan(input@),
        decreases n - pos,
    {
        let ghost prefix = crate::ast::tokens_view(tokens@);
        let ghost spos = pos as int;
        let ghost sline = line;
        let ghost scol = col;
        let c = input[pos];
        match single_token_kind(c) {
            Some(k) => {
                let lex = copy_range(input, pos, pos + 1);
                advance_range(input, pos, pos + 1, &mut line, &mut col);
                proof {
                    lemma_advance_over_step(input@, spos, spos, sline, scol);
                }
                let tok = Token { token_type: k, lexeme: lex, line, col };
                proof {
                    assert(spec_step(input@, spos, sline, scol) == StepV::Tok(
                        tok@,
                        spos + 1,
                        line,
                        col,
                    ));
                    lemma_scan_push(
                        input@,
                        prefix,
                        spos,
                        sline,
                        scol,
                        tok@,
                        spos + 1,
                        line,
                        col,
                    );
                }
                tokens.push(tok);
                pos = pos + 1;
                proof {
                    assert(crate::ast::tokens_view(tokens@) =~= prefix.push(tokens@.last()@));
                }
                continue;
            },
            None => {},
        }
        match pair_token_kinds(c) {
            Some((alone, with_eq)) => {
                if pos + 1 < n && input[pos + 1] == 61 {
                    let lex = copy_range(input, pos, pos + 2);
                    advance_range(input, pos, pos + 2, &mut line, &mut col);
                    let tok = Token { token_type: with_eq, lexeme: lex, line, col };
                    proof {
                        assert(spec_step(input@, spos, sline, scol) == StepV::Tok(
                            tok@,
                            spos + 2,
                            line,
                            col,
                        ));
                        lemma_scan_push(
                            input@,
                            prefix,
                            spos,
                            sline,
                            scol,
                            tok@,
                            spos + 2,
                            line,
                            col,
                        );
                    }
                    tokens.push(tok);
                    pos = pos + 2;
                    proof {
                        assert(crate::ast::tokens_view(tokens@) =~= prefix.push(
                            tokens@.last()@,
                        ));
                    }
                } else {
                    let lex = copy_range(input, pos, pos + 1);
                    advance_range(input, pos, pos + 1, &mut line, &mut col);
                    proof {
                        lemma_advance_over_step(input@, spos, spos, sline, scol);
                    }
                    let tok = Token { token_type: alone, lexeme: lex, line, col };
                    proof {
                        assert(spec_step(input@, spos, sline, scol) == StepV::Tok(
                            tok@,
                            spos + 1,
                            line,
                            col,
                        ));
                        lemma_scan_push(
                            input@,
                            prefix,
                            spos,
                            sline,
                            scol,
                            tok@,
                            spos + 1,
                            line,
                            col,
                        );
                    }
                    tokens.push(tok);
                    pos = pos + 1;
                    proof {
                        assert(crate::ast::tokens_view(tokens@) =~= prefix.push(
                            tokens@.last()@,
                        ));
                    }
                }
                continue;
            },
            None => {},
        }
        if c == 47 {
            if pos + 1 < n && input[pos + 1] == 47 {
                let e = find_comment_end(input, pos + 2);
                advance_range(input, pos, e, &mut line, &mut col);
                proof {
                    assert(spec_step(input@, spos, sline, scol) == StepV::Skip(
                        e as int,
                        line,
                        col,
                    ));
                    lemma_scan_skip(input@, prefix, spos, sline, scol, e as int, line, col);
                }
                pos = e;
            } else {
                let lex = copy_range(input, pos, pos + 1);
                advance_range(input, pos, pos + 1, &mut line, &mut col);
                proof {
                    lemma_advance_over_step(input@, spos, spos, sline, scol);
                }
                let tok = Token { token_type: TokenType::Slash, lexeme: lex, line, col };
                proof {
                    assert(spec_step(input@, spos, sline, scol) == StepV::Tok(
                        tok@,
                        spos + 1,
                        line,
                        col,
                    ));
                    lemma_scan_push(
                        input@,
                        prefix,
                        spos,
                        sline,
                        scol,
                        tok@,
                        spos + 1,
                        line,
                        col,
                    );
                }
                tokens.push(tok);
                pos = pos + 1;
                proof {
                    assert(crate::ast::tokens_view(tokens@) =~= prefix.push(tokens@.last()@));
                }
            }
        } else if c == 32 || c == 13 || c == 9 || c == 10 {
            advance_range(input, pos, pos + 1, &mut line, &mut col);
            proof {
                lemma_advance_over_step(input@, spos, spos, sline, scol);
                assert(spec_step(input@, spos, sline, scol) == StepV::Skip(
                    spos + 1,
                    line,
                    col,
                ));
                lemma_scan_skip(input@, prefix, spos, sline, scol, spos + 1, line, col);
            }
            pos = pos + 1;
        } else if c == 34 {
            match find_string_end(input, pos + 1) {
                Some(e) => {
                    let payload = copy_range(input, pos + 1, e);
                    let lex = copy_range(input, pos, e + 1);
                    advance_range(input, pos, e + 1, &mut line, &mut col);
                    let tok = Token {
                        token_type: TokenType::Str(payload),
                        lexeme: lex,
                        line,
                        col,
                    };
                    proof {
                        assert(spec_step(input@, spos, sline, scol) == StepV::Tok(
                            tok@,
                            e + 1,
                            line,
                            col,
                        ));
                        lemma_scan_push(
                            input@,
                            prefix,
                            spos,
                            sline,
                            scol,
                            tok@,
                            e + 1,
                            line,
                            col,
                        );
                    }
                    tokens.push(tok);
                    pos = e + 1;
                    proof {
                        assert(crate::ast::tokens_view(tokens@) =~= prefix.push(
                            tokens@.last()@,
                        ));
                    }
                },
                None => {
                    advance_range(input, pos, n, &mut line, &mut col);
                    proof {
                        assert(spec_step(input@, spos, sline, scol) == StepV::Fail(
                            ScanErrorV::UnterminatedString(line),
                        ));
                        lemma_scan_fail(
                            input@,
                            prefix,
                            spos,
                            sline,
                            scol,
                            ScanErrorV::UnterminatedString(line),
                        );
                    }
                    return Err(ScanError::UnterminatedString(line));
                },
            }
        } else if 48 <= c && c <= 57 {
            let d = find_digits_end(input, pos);
            let e: usize = if d < n && input[d] == 46 && d + 1 < n && 48 <= input[d + 1]
                && input[d + 1] <= 57 {
                find_digits_end(input, d + 1)
            } else {
                d
            };
            proof {
                if d < n && input@[d as int] == 46 && d + 1 < n && is_digit(input@[d + 1]) {
                    lemma_digits_end(input@, d + 1);
                }
            }
            let lex = copy_range(input, pos, e);
            let bits = parse_number(&lex);
            advance_range(input, pos, e, &mut line, &mut col);
            let tok = Token { token_type: TokenType::Number(bits), lexeme: lex, line, col };
            proof {
                assert(digits_end(input@, spos) == digits_end(input@, spos + 1));
                lemma_digits_end(input@, spos + 1);
                assert(spec_step(input@, spos, sline, scol) == StepV::Tok(
                    tok@,
                    e as int,
                    line,
                    col,
                ));
                lemma_scan_push(input@, prefix, spos, sline, scol, tok@, e as int, line, col);
            }
            tokens.push(tok);
            pos = e;
            proof {
                assert(crate::ast::tokens_view(tokens@) =~= prefix.push(tokens@.last()@));
            }
        } else if (65 <= c && c <= 90) || (97 <= c && c <= 122) {
            let e = find_alnum_end(input, pos);
            proof {
                assert(alnum_end(input@, spos) == alnum_end(input@, spos + 1));
                lemma_alnum_end(input@, spos + 1);
            }
            let lex = copy_range(input, pos, e);
            let kind = match keyword(&lex) {
                Some(k) => k,
                None => TokenType::Identifier,
            };
            advance_range(input, pos, e, &mut line, &mut col);
            let tok = Token { token_type: kind, lexeme: lex, line, col };
            proof {
                assert(spec_step(input@, spos, sline, scol) == StepV::Tok(
                    tok@,
                    e as int,
                    line,
                    col,
                ));
                lemma_scan_push(input@, prefix, spos, sline, scol, tok@, e as int, line, col);
            }
            tokens.push(tok);
            pos = e;
            proof {
                assert(crate::ast::tokens_view(tokens@) =~= prefix.push(tokens@.last()@));
            }
        } else {
            proof {
                assert(spec_step(input@, spos, sline, scol) == StepV::Fail(
                    ScanErrorV::UnknownCharacter(c),
                ));
                lemma_scan_fail(
                    input@,
                    prefix,
                    spos,
                    sline,
                    scol,
                    ScanErrorV::UnknownCharacter(c),
                );
            }
            return Err(ScanError::UnknownCharacter(c));
        }
    }
    let ghost prefix = crate::ast::tokens_view(tokens@);
    let eof = Token { token_type: TokenType::Eof, lexeme: Vec::new(), line, col };
    tokens.push(eof);
    proof {
        let res = spec_scan_from(input@, pos as int, line, col);
        assert(res == Ok::<Seq<TokenV>, ScanErrorV>(
            seq![
                TokenV {
                    token_type: TokenTypeV::Eof,
                    lexeme: Seq::empty(),
                    line,
                    col,
                },
            ],
        ));
        assert(tokens@.last()@.lexeme =~= Seq::<u8>::empty());
        assert(crate::ast::tokens_view(tokens@) =~= prefix.push(tokens@.last()@));
        assert(prefix + seq![tokens@.last()@] =~= prefix.push(tokens@.last()@));
    }
    Ok(tokens)
}

} // verus!
