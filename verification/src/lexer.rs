//! Tokens and the lexer.
//!
//! The lexer turns raw text into an ordered sequence of typed tokens,
//! terminated by an end-of-input marker. Its behaviour is pinned by the
//! spec-level mirror [`spec_lex`].

use vstd::prelude::*;

verus! {

/// The closed set of token kinds the lexer produces and the parser consumes.
#[derive(Debug, Clone, Copy, PartialEq, Eq, Structural)]
pub enum TokenKind {
    Identifier,
    Literal,
    Plus,
    Minus,
    Star,
    Slash,
    Power,
    Exclamation,
    Equals,
    Comma,
    OpenParenthesis,
    ClosedParenthesis,
    Pipe,
    OpenCeil,
    ClosedCeil,
    OpenFloor,
    ClosedFloor,
    Deg,
    Rad,
    Unknown,
    EOF,
}

impl TokenKind {
    /// Whether this token is an angle-unit suffix (`deg` or `rad`).
    pub fn is_unit(&self) -> (r: bool)
        ensures
            r == self.spec_is_unit(),
    {
        match self {
            TokenKind::Deg => true,
            TokenKind::Rad => true,
            _ => false,
        }
    }

    pub open spec fn spec_is_unit(&self) -> bool {
        self is Deg || self is Rad
    }
}

/// A single token: a kind together with the text it was read from.
///
/// Only identifier and literal tokens carry text; operator and delimiter
/// tokens carry the empty string.
#[derive(Debug, Clone)]
pub struct Token {
    pub kind: TokenKind,
    pub value: String,
}

/// The mathematical image of a [`Token`]: its kind and its text as a
/// sequence of characters.
pub ghost struct TokenSpec {
    pub kind: TokenKind,
    pub value: Seq<char>,
}

impl View for Token {
    type V = TokenSpec;

    open spec fn view(&self) -> TokenSpec {
        TokenSpec { kind: self.kind, value: self.value@ }
    }
}

impl DeepView for Token {
    type V = TokenSpec;

    open spec fn deep_view(&self) -> TokenSpec {
        self@
    }
}

/// The synthetic token handed out when the cursor stands past the end of the
/// token sequence.
pub open spec fn spec_eof_token() -> TokenSpec {
    TokenSpec { kind: TokenKind::EOF, value: Seq::empty() }
}

/// Compares two string slices by their characters.
pub fn str_eq(a: &str, b: &str) -> (r: bool)
    ensures
        r == (a@ == b@),
{
    let x: String = a.to_owned();
    let y: String = b.to_owned();
    x == y
}

pub open spec fn spec_is_whitespace(c: char) -> bool {
    c == ' ' || c == '\t' || c == '\n' || c == '\r'
}

/// Characters a numeric literal is made of: digits and the decimal point.
pub open spec fn spec_is_digit_or_dot(c: char) -> bool {
    c == '.' || ('0' as u32 <= c as u32 && c as u32 <= '9' as u32)
}

/// Characters an identifier is made of: ASCII letters.
pub open spec fn spec_is_letter(c: char) -> bool {
    ('a' as u32 <= c as u32 && c as u32 <= 'z' as u32) || ('A' as u32 <= c as u32 && c as u32
        <= 'Z' as u32)
}

/// The token kind of a one-character symbol; characters outside the language
/// become `Unknown` tokens.
pub open spec fn spec_symbol_kind(c: char) -> TokenKind {
    if c == '+' {
        TokenKind::Plus
    } else if c == '-' {
        TokenKind::Minus
    } else if c == '*' {
        TokenKind::Star
    } else if c == '/' {
        TokenKind::Slash
    } else if c == '^' {
        TokenKind::Power
    } else if c == '!' {
        TokenKind::Exclamation
    } else if c == '=' {
        TokenKind::Equals
    } else if c == ',' {
        TokenKind::Comma
    } else if c == '(' {
        TokenKind::OpenParenthesis
    } else if c == ')' {
        TokenKind::ClosedParenthesis
    } else if c == '|' {
        TokenKind::Pipe
    } else if c == '\u{2308}' {
        TokenKind::OpenCeil
    } else if c == '\u{2309}' {
        TokenKind::ClosedCeil
    } else if c == '\u{230A}' {
        TokenKind::OpenFloor
    } else if c == '\u{230B}' {
        TokenKind::ClosedFloor
    } else {
        TokenKind::Unknown
    }
}

/// The text a one-character symbol token carries: symbols of the language
/// carry none, an unknown character is kept for error reporting.
pub open spec fn spec_symbol_value(c: char) -> Seq<char> {
    if spec_symbol_kind(c) is Unknown {
        seq![c]
    } else {
        Seq::empty()
    }
}

/// The end of the run of literal characters that starts at `i`.
pub open spec fn spec_scan_num(s: Seq<char>, i: int) -> int
    decreases s.len() - i,
{
    if 0 <= i < s.len() && spec_is_digit_or_dot(s[i]) {
        spec_scan_num(s, i + 1)
    } else {
        i
    }
}

/// The end of the run of identifier characters that starts at `i`.
pub open spec fn spec_scan_ident(s: Seq<char>, i: int) -> int
    decreases s.len() - i,
{
    if 0 <= i < s.len() && spec_is_letter(s[i]) {
        spec_scan_ident(s, i + 1)
    } else {
        i
    }
}

pub proof fn lemma_scan_num_bounds(s: Seq<char>, i: int)
    requires
        0 <= i <= s.len(),
    ensures
        i <= spec_scan_num(s, i) <= s.len(),
    decreases s.len() - i,
{
    if i < s.len() && spec_is_digit_or_dot(s[i]) {
        lemma_scan_num_bounds(s, i + 1);
    }
}

pub proof fn lemma_scan_ident_bounds(s: Seq<char>, i: int)
    requires
        0 <= i <= s.len(),
    ensures
        i <= spec_scan_ident(s, i) <= s.len(),
    decreases s.len() - i,
{
    if i < s.len() && spec_is_letter(s[i]) {
        lemma_scan_ident_bounds(s, i + 1);
    }
}

/// The tokens of the text from position `i` on, without the end marker.
pub open spec fn spec_lex_rec(s: Seq<char>, i: int) -> Seq<TokenSpec>
    decreases s.len() - i,
{
    if !(0 <= i < s.len()) {
        Seq::empty()
    } else {
        let c = s[i];
        if spec_is_whitespace(c) {
            spec_lex_rec(s, i + 1)
        } else if spec_is_digit_or_dot(c) {
            let j = spec_scan_num(s, i);
            if i < j <= s.len() {
                seq![TokenSpec { kind: TokenKind::Literal, value: s.subrange(i, j) }]
                    + spec_lex_rec(s, j)
            } else {
                Seq::empty()
            }
        } else if spec_is_letter(c) {
            let j = spec_scan_ident(s, i);
            if i < j <= s.len() {
                let v = s.subrange(i, j);
                let kind = if v == "deg"@ {
                    TokenKind::Deg
                } else if v == "rad"@ {
                    TokenKind::Rad
                } else {
                    TokenKind::Identifier
                };
                seq![TokenSpec { kind, value: v }] + spec_lex_rec(s, j)
            } else {
                Seq::empty()
            }
        } else {
            seq![TokenSpec { kind: spec_symbol_kind(c), value: spec_symbol_value(c) }]
                + spec_lex_rec(s, i + 1)
        }
    }
}

/// What the lexer turns a text into: its tokens, terminated by the end
/// marker.
pub open spec fn spec_lex(s: Seq<char>) -> Seq<TokenSpec> {
    spec_lex_rec(s, 0) + seq![spec_eof_token()]
}

fn is_whitespace(c: char) -> (r: bool)
    ensures
        r == spec_is_whitespace(c),
{
    c == ' ' || c == '\t' || c == '\n' || c == '\r'
}

fn is_digit_or_dot(c: char) -> (r: bool)
    ensures
        r == spec_is_digit_or_dot(c),
{
    c == '.' || ('0' as u32 <= c as u32 && c as u32 <= '9' as u32)
}

fn is_letter(c: char) -> (r: bool)
    ensures
        r == spec_is_letter(c),
{
    ('a' as u32 <= c as u32 && c as u32 <= 'z' as u32) || ('A' as u32 <= c as u32 && c as u32
        <= 'Z' as u32)
}

fn symbol_kind(c: char) -> (r: TokenKind)
    ensures
        r == spec_symbol_kind(c),
{
    if c == '+' {
        TokenKind::Plus
    } else if c == '-' {
        TokenKind::Minus
    } else if c == '*' {
        TokenKind::Star
    } else if c == '/' {
        TokenKind::Slash
    } else if c == '^' {
        TokenKind::Power
    } else if c == '!' {
        TokenKind::Exclamation
    } else if c == '=' {
        TokenKind::Equals
    } else if c == ',' {
        TokenKind::Comma
    } else if c == '(' {
        TokenKind::OpenParenthesis
    } else if c == ')' {
        TokenKind::ClosedParenthesis
    } else if c == '|' {
        TokenKind::Pipe
    } else if c == '\u{2308}' {
        TokenKind::OpenCeil
    } else if c == '\u{2309}' {
        TokenKind::ClosedCeil
    } else if c == '\u{230A}' {
        TokenKind::OpenFloor
    } else if c == '\u{230B}' {
        TokenKind::ClosedFloor
    } else {
        TokenKind::Unknown
    }
}

/// Turns raw text into the token sequence [`spec_lex`] describes: literals,
/// identifiers (with `deg` and `rad` as angle-unit suffixes), one-character
/// symbols, with whitespace skipped and an end marker appended.
pub fn lex(input: &str) -> (r: Vec<Token>)
    ensures
        r.deep_view() == spec_lex(input@),
{
    let ghost s = input@;
    let n = input.unicode_len();
    let mut tokens: Vec<Token> = Vec::new();
    let mut i: usize = 0;
    while i < n
        invariant
            i <= n,
            n == s.len(),
            s == input@,
            spec_lex_rec(s, 0) == tokens.deep_view() + spec_lex_rec(s, i as int),
        decreases n - i,
    {
        let c = input.get_char(i);
        if is_whitespace(c) {
            i = i + 1;
        } else if is_digit_or_dot(c) {
            let mut j = i + 1;
            proof {
                lemma_scan_num_bounds(s, i as int);
            }
            while j < n && is_digit_or_dot(input.get_char(j))
                invariant
                    i < j <= n,
                    n == s.len(),
                    s == input@,
                    spec_scan_num(s, i as int) == spec_scan_num(s, j as int),
                decreases n - j,
            {
                j = j + 1;
            }
            proof {
                assert(spec_scan_num(s, j as int) == j as int);
            }
            let text = input.substring_char(i, j).to_owned();
            let ghost tprev = tokens.deep_view();
            let ghost tok = TokenSpec { kind: TokenKind::Literal, value: s.subrange(i as int, j as int) };
            tokens.push(Token { kind: TokenKind::Literal, value: text });
            proof {
                assert(tokens.deep_view() =~= tprev.push(tok));
                assert(tprev + (seq![tok] + spec_lex_rec(s, j as int)) =~= tprev.push(tok)
                    + spec_lex_rec(s, j as int));
            }
            i = j;
        } else if is_letter(c) {
            let mut j = i + 1;
            proof {
                lemma_scan_ident_bounds(s, i as int);
            }
            while j < n && is_letter(input.get_char(j))
                invariant
                    i < j <= n,
                    n == s.len(),
                    s == input@,
                    spec_scan_ident(s, i as int) == spec_scan_ident(s, j as int),
                decreases n - j,
            {
                j = j + 1;
            }
            proof {
                assert(spec_scan_ident(s, j as int) == j as int);
            }
            let text = input.substring_char(i, j);
            let kind = if str_eq(text, "deg") {
                TokenKind::Deg
            } else if str_eq(text, "rad") {
                TokenKind::Rad
            } else {
                TokenKind::Identifier
            };
            let ghost tprev = tokens.deep_view();
            let ghost tok = TokenSpec { kind, value: s.subrange(i as int, j as int) };
            tokens.push(Token { kind, value: text.to_owned() });
            proof {
                assert(tokens.deep_view() =~= tprev.push(tok));
                assert(tprev + (seq![tok] + spec_lex_rec(s, j as int)) =~= tprev.push(tok)
                    + spec_lex_rec(s, j as int));
            }
            i = j;
        } else {
            let kind = symbol_kind(c);
            let value = if let TokenKind::Unknown = kind {
                input.substring_char(i, i + 1).to_owned()
            } else {
                String::new()
            };
            let ghost tprev = tokens.deep_view();
            let ghost tok = TokenSpec { kind: spec_symbol_kind(c), value: spec_symbol_value(c) };
            tokens.push(Token { kind, value });
            proof {
                assert(seq![c] =~= s.subrange(i as int, i + 1));
                assert(tokens.deep_view() =~= tprev.push(tok));
                assert(tprev + (seq![tok] + spec_lex_rec(s, i + 1)) =~= tprev.push(tok)
                    + spec_lex_rec(s, i + 1));
            }
            i = i + 1;
        }
    }
    let ghost tprev = tokens.deep_view();
    tokens.push(Token { kind: TokenKind::EOF, value: String::new() });
    proof {
        assert(tokens.deep_view() =~= tprev.push(spec_eof_token()));
        assert(tprev + spec_lex_rec(s, n as int) =~= tprev);
        assert(tprev.push(spec_eof_token()) =~= spec_lex_rec(s, 0) + seq![spec_eof_token()]);
    }
    tokens
}

} // verus!
