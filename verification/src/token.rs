//! Tokens produced by the scanner: a kind (with the parsed payload for
//! string and number literals), the verbatim lexeme, and a source position.

use vstd::prelude::*;

verus! {

/// The kind of a token. String literals carry their text payload and number
/// literals carry the bit representation of their IEEE-754 double value.
pub enum TokenType {
    LeftParen,
    RightParen,
    LeftBrace,
    RightBrace,
    LeftBracket,
    RightBracket,
    Comma,
    Dot,
    Minus,
    Plus,
    Semicolon,
    Slash,
    Star,
    Bang,
    BangEqual,
    Equal,
    EqualEqual,
    Greater,
    GreaterEqual,
    Less,
    LessEqual,
    Identifier,
    Str(Vec<u8>),
    Number(u64),
    And,
    Class,
    Else,
    False,
    Fun,
    For,
    If,
    Nil,
    Or,
    Print,
    Return,
    Super,
    This,
    True,
    Var,
    While,
    Eof,
}

/// Mathematical image of a `TokenType`: payloads become sequences.
pub ghost enum TokenTypeV {
    LeftParen,
    RightParen,
    LeftBrace,
    RightBrace,
    LeftBracket,
    RightBracket,
    Comma,
    Dot,
    Minus,
    Plus,
    Semicolon,
    Slash,
    Star,
    Bang,
    BangEqual,
    Equal,
    EqualEqual,
    Greater,
    GreaterEqual,
    Less,
    LessEqual,
    Identifier,
    Str(Seq<u8>),
    Number(u64),
    And,
    Class,
    Else,
    False,
    Fun,
    For,
    If,
    Nil,
    Or,
    Print,
    Return,
    Super,
    This,
    True,
    Var,
    While,
    Eof,
}

impl View for TokenType {
    type V = TokenTypeV;

    open spec fn view(&self) -> TokenTypeV {
        match self {
            TokenType::LeftParen => TokenTypeV::LeftParen,
            TokenType::RightParen => TokenTypeV::RightParen,
            TokenType::LeftBrace => TokenTypeV::LeftBrace,
            TokenType::RightBrace => TokenTypeV::RightBrace,
            TokenType::LeftBracket => TokenTypeV::LeftBracket,
            TokenType::RightBracket => TokenTypeV::RightBracket,
            TokenType::Comma => TokenTypeV::Comma,
            TokenType::Dot => TokenTypeV::Dot,
            TokenType::Minus => TokenTypeV::Minus,
            TokenType::Plus => TokenTypeV::Plus,
            TokenType::Semicolon => TokenTypeV::Semicolon,
            TokenType::Slash => TokenTypeV::Slash,
            TokenType::Star => TokenTypeV::Star,
            TokenType::Bang => TokenTypeV::Bang,
            TokenType::BangEqual => TokenTypeV::BangEqual,
            TokenType::Equal => TokenTypeV::Equal,
            TokenType::EqualEqual => TokenTypeV::EqualEqual,
            TokenType::Greater => TokenTypeV::Greater,
            TokenType::GreaterEqual => TokenTypeV::GreaterEqual,
            TokenType::Less => TokenTypeV::Less,
            TokenType::LessEqual => TokenTypeV::LessEqual,
            TokenType::Identifier => TokenTypeV::Identifier,
            TokenType::Str(s) => TokenTypeV::Str(s@),
            TokenType::Number(n) => TokenTypeV::Number(*n),
            TokenType::And => TokenTypeV::And,
            TokenType::Class => TokenTypeV::Class,
            TokenType::Else => TokenTypeV::Else,
            TokenType::False => TokenTypeV::False,
            TokenType::Fun => TokenTypeV::Fun,
            TokenType::For => TokenTypeV::For,
            TokenType::If => TokenTypeV::If,
            TokenType::Nil => TokenTypeV::Nil,
            TokenType::Or => TokenTypeV::Or,
            TokenType::Print => TokenTypeV::Print,
            TokenType::Return => TokenTypeV::Return,
            TokenType::Super => TokenTypeV::Super,
            TokenType::This => TokenTypeV::This,
            TokenType::True => TokenTypeV::True,
            TokenType::Var => TokenTypeV::Var,
            TokenType::While => TokenTypeV::While,
            TokenType::Eof => TokenTypeV::Eof,
        }
    }
}

/// A scanned token: kind, verbatim source slice, and position.
pub struct Token {
    pub token_type: TokenType,
    pub lexeme: Vec<u8>,
    pub line: usize,
    pub col: u32,
}

/// Mathematical image of a `Token`.
pub ghost struct TokenV {
    pub token_type: TokenTypeV,
    pub lexeme: Seq<u8>,
    pub line: usize,
    pub col: u32,
}

impl View for Token {
    type V = TokenV;

    open spec fn view(&self) -> TokenV {
        TokenV {
            token_type: self.token_type@,
            lexeme: self.lexeme@,
            line: self.line,
            col: self.col,
        }
    }
}

impl Token {
    /// Structural copy; the copy denotes the same token.
    pub fn duplicate(&self) -> (r: Token)
        ensures
            r@ == self@,
    {
        Token {
            token_type: self.token_type.duplicate(),
            lexeme: clone_bytes(&self.lexeme),
            line: self.line,
            col: self.col,
        }
    }
}

/// Byte-for-byte copy of a byte vector.
pub fn clone_bytes(v: &Vec<u8>) -> (r: Vec<u8>)
    ensures
        r@ == v@,
{
    let r = v.clone();
    assert(r@ =~= v@);
    r
}

impl TokenType {
    /// Structural copy; the copy denotes the same kind.
    pub fn duplicate(&self) -> (r: TokenType)
        ensures
            r@ == self@,
    {
        match self {
            TokenType::LeftParen => TokenType::LeftParen,
            TokenType::RightParen => TokenType::RightParen,
            TokenType::LeftBrace => TokenType::LeftBrace,
            TokenType::RightBrace => TokenType::RightBrace,
            TokenType::LeftBracket => TokenType::LeftBracket,
            TokenType::RightBracket => TokenType::RightBracket,
            TokenType::Comma => TokenType::Comma,
            TokenType::Dot => TokenType::Dot,
            TokenType::Minus => TokenType::Minus,
            TokenType::Plus => TokenType::Plus,
            TokenType::Semicolon => TokenType::Semicolon,
            TokenType::Slash => TokenType::Slash,
            TokenType::Star => TokenType::Star,
            TokenType::Bang => TokenType::Bang,
            TokenType::BangEqual => TokenType::BangEqual,
            TokenType::Equal => TokenType::Equal,
            TokenType::EqualEqual => TokenType::EqualEqual,
            TokenType::Greater => TokenType::Greater,
            TokenType::GreaterEqual => TokenType::GreaterEqual,
            TokenType::Less => TokenType::Less,
            TokenType::LessEqual => TokenType::LessEqual,
            TokenType::Identifier => TokenType::Identifier,
            TokenType::Str(s) => TokenType::Str(clone_bytes(s)),
            TokenType::Number(n) => TokenType::Number(*n),
            TokenType::And => TokenType::And,
            TokenType::Class => TokenType::Class,
            TokenType::Else => TokenType::Else,
            TokenType::False => TokenType::False,
            TokenType::Fun => TokenType::Fun,
            TokenType::For => TokenType::For,
            TokenType::If => TokenType::If,
            TokenType::Nil => TokenType::Nil,
            TokenType::Or => TokenType::Or,
            TokenType::Print => TokenType::Print,
            TokenType::Return => TokenType::Return,
            TokenType::Super => TokenType::Super,
            TokenType::This => TokenType::This,
            TokenType::True => TokenType::True,
            TokenType::Var => TokenType::Var,
            TokenType::While => TokenType::While,
            TokenType::Eof => TokenType::Eof,
        }
    }
}

/// A small tag distinguishing the kinds of two token types, so the parser
/// can compare kinds while ignoring literal payloads.
pub open spec fn spec_kind_tag(t: TokenTypeV) -> u8 {
    match t {
        TokenTypeV::LeftParen => 0,
        TokenTypeV::RightParen => 1,
        TokenTypeV::LeftBrace => 2,
        TokenTypeV::RightBrace => 3,
        TokenTypeV::LeftBracket => 4,
        TokenTypeV::RightBracket => 5,
        TokenTypeV::Comma => 6,
        TokenTypeV::Dot => 7,
        TokenTypeV::Minus => 8,
        TokenTypeV::Plus => 9,
        TokenTypeV::Semicolon => 10,
        TokenTypeV::Slash => 11,
        TokenTypeV::Star => 12,
        TokenTypeV::Bang => 13,
        TokenTypeV::BangEqual => 14,
        TokenTypeV::Equal => 15,
        TokenTypeV::EqualEqual => 16,
        TokenTypeV::Greater => 17,
        TokenTypeV::GreaterEqual => 18,
        TokenTypeV::Less => 19,
        TokenTypeV::LessEqual => 20,
        TokenTypeV::Identifier => 21,
        TokenTypeV::Str(_) => 22,
        TokenTypeV::Number(_) => 23,
        TokenTypeV::And => 24,
        TokenTypeV::Class => 25,
        TokenTypeV::Else => 26,
        TokenTypeV::False => 27,
        TokenTypeV::Fun => 28,
        TokenTypeV::For => 29,
        TokenTypeV::If => 30,
        TokenTypeV::Nil => 31,
        TokenTypeV::Or => 32,
        TokenTypeV::Print => 33,
        TokenTypeV::Return => 34,
        TokenTypeV::Super => 35,
        TokenTypeV::This => 36,
        TokenTypeV::True => 37,
        TokenTypeV::Var => 38,
        TokenTypeV::While => 39,
        TokenTypeV::Eof => 40,
    }
}

/// Two token kinds agree when their tags agree (payloads are ignored).
pub open spec fn same_kind(a: TokenTypeV, b: TokenTypeV) -> bool {
    spec_kind_tag(a) == spec_kind_tag(b)
}

impl TokenType {
    /// The tag of this kind.
    pub fn kind_tag(&self) -> (r: u8)
        ensures
            r == spec_kind_tag(self@),
    {
        match self {
            TokenType::LeftParen => 0,
            TokenType::RightParen => 1,
            TokenType::LeftBrace => 2,
            TokenType::RightBrace => 3,
            TokenType::LeftBracket => 4,
            TokenType::RightBracket => 5,
            TokenType::Comma => 6,
            TokenType::Dot => 7,
            TokenType::Minus => 8,
            TokenType::Plus => 9,
            TokenType::Semicolon => 10,
            TokenType::Slash => 11,
            TokenType::Star => 12,
            TokenType::Bang => 13,
            TokenType::BangEqual => 14,
            TokenType::Equal => 15,
            TokenType::EqualEqual => 16,
            TokenType::Greater => 17,
            TokenType::GreaterEqual => 18,
            TokenType::Less => 19,
            TokenType::LessEqual => 20,
            TokenType::Identifier => 21,
            TokenType::Str(_) => 22,
            TokenType::Number(_) => 23,
            TokenType::And => 24,
            TokenType::Class => 25,
            TokenType::Else => 26,
            TokenType::False => 27,
            TokenType::Fun => 28,
            TokenType::For => 29,
            TokenType::If => 30,
            TokenType::Nil => 31,
            TokenType::Or => 32,
            TokenType::Print => 33,
            TokenType::Return => 34,
            TokenType::Super => 35,
            TokenType::This => 36,
            TokenType::True => 37,
            TokenType::Var => 38,
            TokenType::While => 39,
            TokenType::Eof => 40,
        }
    }

    /// Whether this kind and `other` are the same kind of token.
    pub fn is_same_kind(&self, other: &TokenType) -> (r: bool)
        ensures
            r == same_kind(self@, other@),
    {
        self.kind_tag() == other.kind_tag()
    }
}

/// The reserved word denoted by `lexeme`, if any.
pub open spec fn spec_keyword(lexeme: Seq<u8>) -> Option<TokenTypeV> {
    if lexeme == seq![97u8, 110u8, 100u8] {
        Some(TokenTypeV::And)
    } else if lexeme == seq![99u8, 108u8, 97u8, 115u8, 115u8] {
        Some(TokenTypeV::Class)
    } else if lexeme == seq![101u8, 108u8, 115u8, 101u8] {
        Some(TokenTypeV::Else)
    } else if lexeme == seq![102u8, 97u8, 108u8, 115u8, 101u8] {
        Some(TokenTypeV::False)
    } else if lexeme == seq![102u8, 111u8, 114u8] {
        Some(TokenTypeV::For)
    } else if lexeme == seq![102u8, 117u8, 110u8] {
        Some(TokenTypeV::Fun)
    } else if lexeme == seq![105u8, 102u8] {
        Some(TokenTypeV::If)
    } else if lexeme == seq![110u8, 105u8, 108u8] {
        Some(TokenTypeV::Nil)
    } else if lexeme == seq![111u8, 114u8] {
        Some(TokenTypeV::Or)
    } else if lexeme == seq![112u8, 114u8, 105u8, 110u8, 116u8] {
        Some(TokenTypeV::Print)
    } else if lexeme == seq![114u8, 101u8, 116u8, 117u8, 114u8, 110u8] {
        Some(TokenTypeV::Return)
    } else if lexeme == seq![115u8, 117u8, 112u8, 101u8, 114u8] {
        Some(TokenTypeV::Super)
    } else if lexeme == seq![116u8, 104u8, 105u8, 115u8] {
        Some(TokenTypeV::This)
    } else if lexeme == seq![116u8, 114u8, 117u8, 101u8] {
        Some(TokenTypeV::True)
    } else if lexeme == seq![118u8, 97u8, 114u8] {
        Some(TokenTypeV::Var)
    } else if lexeme == seq![119u8, 104u8, 105u8, 108u8, 101u8] {
        Some(TokenTypeV::While)
    } else {
        None
    }
}

/// Whether two byte strings are equal.
pub fn bytes_equal(a: &[u8], b: &[u8]) -> (r: bool)
    ensures
        r == (a@ == b@),
{
    if a.len() != b.len() {
        assert(a@ != b@) by {
            assert(a@.len() != b@.len());
        }
        return false;
    }
    let n = a.len();
    let mut i: usize = 0;
    while i < n
        invariant
            n == a@.len() == b@.len(),
            0 <= i <= n,
            forall|j: int| 0 <= j < i ==> a@[j] == b@[j],
        decreases n - i,
    {
        if a[i] != b[i] {
            return false;
        }
        i += 1;
    }
    assert(a@ =~= b@);
    true
}

/// Looks `lexeme` up among the reserved words.
pub fn keyword(lexeme: &Vec<u8>) -> (r: Option<TokenType>)
    ensures
        match r {
            Some(t) => spec_keyword(lexeme@) == Some(t@),
            None => spec_keyword(lexeme@) is None,
        },
{
    let kw_and: Vec<u8> = vec![97u8, 110u8, 100u8];
    let kw_class: Vec<u8> = vec![99u8, 108u8, 97u8, 115u8, 115u8];
    let kw_else: Vec<u8> = vec![101u8, 108u8, 115u8, 101u8];
    let kw_false: Vec<u8> = vec![102u8, 97u8, 108u8, 115u8, 101u8];
    let kw_for: Vec<u8> = vec![102u8, 111u8, 114u8];
    let kw_fun: Vec<u8> = vec![102u8, 117u8, 110u8];
    let kw_if: Vec<u8> = vec![105u8, 102u8];
    let kw_nil: Vec<u8> = vec![110u8, 105u8, 108u8];
    let kw_or: Vec<u8> = vec![111u8, 114u8];
    let kw_print: Vec<u8> = vec![112u8, 114u8, 105u8, 110u8, 116u8];
    let kw_return: Vec<u8> = vec![114u8, 101u8, 116u8, 117u8, 114u8, 110u8];
    let kw_super: Vec<u8> = vec![115u8, 117u8, 112u8, 101u8, 114u8];
    let kw_this: Vec<u8> = vec![116u8, 104u8, 105u8, 115u8];
    let kw_true: Vec<u8> = vec![116u8, 114u8, 117u8, 101u8];
    let kw_var: Vec<u8> = vec![118u8, 97u8, 114u8];
    let kw_while: Vec<u8> = vec![119u8, 104u8, 105u8, 108u8, 101u8];
    if bytes_equal(lexeme.as_slice(), kw_and.as_slice()) {
        Some(TokenType::And)
    } else if bytes_equal(lexeme.as_slice(), kw_class.as_slice()) {
        Some(TokenType::Class)
    } else if bytes_equal(lexeme.as_slice(), kw_else.as_slice()) {
        Some(TokenType::Else)
    } else if bytes_equal(lexeme.as_slice(), kw_false.as_slice()) {
        Some(TokenType::False)
    } else if bytes_equal(lexeme.as_slice(), kw_for.as_slice()) {
        Some(TokenType::For)
    } else if bytes_equal(lexeme.as_slice(), kw_fun.as_slice()) {
        Some(TokenType::Fun)
    } else if bytes_equal(lexeme.as_slice(), kw_if.as_slice()) {
        Some(TokenType::If)
    } else if bytes_equal(lexeme.as_slice(), kw_nil.as_slice()) {
        Some(TokenType::Nil)
    } else if bytes_equal(lexeme.as_slice(), kw_or.as_slice()) {
        Some(TokenType::Or)
    } else if bytes_equal(lexeme.as_slice(), kw_print.as_slice()) {
        Some(TokenType::Print)
    } else if bytes_equal(lexeme.as_slice(), kw_return.as_slice()) {
        Some(TokenType::Return)
    } else if bytes_equal(lexeme.as_slice(), kw_super.as_slice()) {
        Some(TokenType::Super)
    } else if bytes_equal(lexeme.as_slice(), kw_this.as_slice()) {
        Some(TokenType::This)
    } else if bytes_equal(lexeme.as_slice(), kw_true.as_slice()) {
        Some(TokenType::True)
    } else if bytes_equal(lexeme.as_slice(), kw_var.as_slice()) {
        Some(TokenType::Var)
    } else if bytes_equal(lexeme.as_slice(), kw_while.as_slice()) {
        Some(TokenType::While)
    } else {
        None
    }
}

} // verus!
