//! A minimal arithmetic tokenizer: numbers, the four operators, and
//! parentheses, with byte-exact source locations.
//!
//! A number token is, by deliberate choice, a maximal run of the ten
//! decimal digits — zero included, so `"10"` is the single token
//! `Number(10)` — valued in base ten; a run whose value exceeds `u64`
//! is rejected with an invalid-character error spanning the run.
//!
//! The function [`lex`] is specified against [`spec_lex_from`], a
//! recursive description of the whole token stream, so its result is
//! pinned down for every input.

use vstd::prelude::*;

verus! {

use vstd::string::StringSliceAdditionalSpecFns;

/// A half-open byte interval `[start, end)` of the input.
#[derive(Debug, Clone, PartialEq, Eq, Hash)]
pub struct Loc(pub usize, pub usize);

impl Loc {
    /// The smallest interval covering both `self` and `other`.
    pub fn merge(&self, other: &Loc) -> (r: Loc)
        ensures
            r.0 == (if self.0 <= other.0 {
                self.0
            } else {
                other.0
            }),
            r.1 == (if self.1 >= other.1 {
                self.1
            } else {
                other.1
            }),
    {
        let start = if self.0 <= other.0 {
            self.0
        } else {
            other.0
        };
        let end = if self.1 >= other.1 {
            self.1
        } else {
            other.1
        };
        Loc(start, end)
    }
}

/// A value annotated with the input interval it came from.
#[derive(Debug, Clone, PartialEq, Eq, Hash)]
pub struct Annot<T> {
    pub value: T,
    pub loc: Loc,
}

impl<T> Annot<T> {
    pub fn new(value: T, loc: Loc) -> (r: Self)
        ensures
            r == (Annot { value, loc }),
    {
        Annot { value, loc }
    }
}

/// What a token is, without its location.
#[derive(Debug, Clone, PartialEq, Eq, Hash)]
pub enum TokenKind {
    Number(u64),
    Plus,
    Minus,
    Asterisk,
    Slash,
    LParen,
    RParen,
}

/// A token: a kind at a location.
pub type Token = Annot<TokenKind>;

impl Annot<TokenKind> {
    pub fn number(n: u64, loc: Loc) -> (r: Self)
        ensures
            r == (Annot { value: TokenKind::Number(n), loc }),
    {
        Self::new(TokenKind::Number(n), loc)
    }

    pub fn plus(loc: Loc) -> (r: Self)
        ensures
            r == (Annot { value: TokenKind::Plus, loc }),
    {
        Self::new(TokenKind::Plus, loc)
    }

    pub fn minus(loc: Loc) -> (r: Self)
        ensures
            r == (Annot { value: TokenKind::Minus, loc }),
    {
        Self::new(TokenKind::Minus, loc)
    }

    pub fn asterisk(loc: Loc) -> (r: Self)
        ensures
            r == (Annot { value: TokenKind::Asterisk, loc }),
    {
        Self::new(TokenKind::Asterisk, loc)
    }

    pub fn slash(loc: Loc) -> (r: Self)
        ensures
            r == (Annot { value: TokenKind::Slash, loc }),
    {
        Self::new(TokenKind::Slash, loc)
    }

    pub fn lparen(loc: Loc) -> (r: Self)
        ensures
            r == (Annot { value: TokenKind::LParen, loc }),
    {
        Self::new(TokenKind::LParen, loc)
    }

    pub fn rparen(loc: Loc) -> (r: Self)
        ensures
            r == (Annot { value: TokenKind::RParen, loc }),
    {
        Self::new(TokenKind::RParen, loc)
    }
}

/// Why lexing stopped.
#[derive(Debug, Clone, PartialEq, Eq, Hash)]
pub enum LexErrorKind {
    /// A byte no token starts with, or a numeric literal too large for
    /// `u64`, reported at the byte where its run begins.
    InvalidChar(char),
    /// The input ended where a byte was still needed.
    Eof,
}

/// A lexing error: a reason at a location.
pub type LexError = Annot<LexErrorKind>;

impl Annot<LexErrorKind> {
    pub fn invalid_char(c: char, loc: Loc) -> (r: Self)
        ensures
            r == (Annot { value: LexErrorKind::InvalidChar(c), loc }),
    {
        Self::new(LexErrorKind::InvalidChar(c), loc)
    }

    pub fn eof(loc: Loc) -> (r: Self)
        ensures
            r == (Annot { value: LexErrorKind::Eof, loc }),
    {
        Self::new(LexErrorKind::Eof, loc)
    }
}

/// Whether `b` is an ASCII decimal digit, `'0'` through `'9'`.
pub open spec fn is_digit(b: u8) -> bool {
    48 <= b <= 57
}

/// Whether `b` is a blank the lexer skips: space, newline or tab.
pub open spec fn is_space(b: u8) -> bool {
    b == 32 || b == 10 || b == 9
}

/// The first position at or after `pos` that is not a digit.
pub open spec fn digit_run_end(s: Seq<u8>, pos: int) -> int
    decreases s.len() - pos,
{
    if 0 <= pos < s.len() && is_digit(s[pos]) {
        digit_run_end(s, pos + 1)
    } else {
        pos
    }
}

/// The first position at or after `pos` that is not a blank.
pub open spec fn space_run_end(s: Seq<u8>, pos: int) -> int
    decreases s.len() - pos,
{
    if 0 <= pos < s.len() && is_space(s[pos]) {
        space_run_end(s, pos + 1)
    } else {
        pos
    }
}

/// The numeric worth of one digit byte; a non-digit counts for nothing.
pub open spec fn digit_of(b: u8) -> nat {
    if is_digit(b) {
        (b - 48) as nat
    } else {
        0
    }
}

/// The value of a string of decimal digit bytes, most significant first.
pub open spec fn digits_value(s: Seq<u8>) -> nat
    decreases s.len(),
{
    if s.len() == 0 {
        0
    } else {
        digits_value(s.drop_last()) * 10 + digit_of(s.last())
    }
}

pub proof fn lemma_digit_run_end_bounds(s: Seq<u8>, pos: int)
    requires
        0 <= pos <= s.len(),
    ensures
        pos <= digit_run_end(s, pos) <= s.len(),
    decreases s.len() - pos,
{
    if pos < s.len() && is_digit(s[pos]) {
        lemma_digit_run_end_bounds(s, pos + 1);
    }
}

pub proof fn lemma_space_run_end_bounds(s: Seq<u8>, pos: int)
    requires
        0 <= pos <= s.len(),
    ensures
        pos <= space_run_end(s, pos) <= s.len(),
    decreases s.len() - pos,
{
    if pos < s.len() && is_space(s[pos]) {
        lemma_space_run_end_bounds(s, pos + 1);
    }
}

/// A digit string is worth at least any of its prefixes.
proof fn lemma_digits_value_prefix_le(s: Seq<u8>, k: int)
    requires
        0 <= k <= s.len(),
    ensures
        digits_value(s.take(k)) <= digits_value(s),
    decreases s.len(),
{
    if k < s.len() {
        assert(s.drop_last().take(k) =~= s.take(k));
        lemma_digits_value_prefix_le(s.drop_last(), k);
    } else {
        assert(s.take(k) =~= s);
    }
}

/// The kind of token a single operator byte stands for, if any.
pub open spec fn operator_kind(b: u8) -> Option<TokenKind> {
    if b == 43 {
        Some(TokenKind::Plus)
    } else if b == 45 {
        Some(TokenKind::Minus)
    } else if b == 42 {
        Some(TokenKind::Asterisk)
    } else if b == 47 {
        Some(TokenKind::Slash)
    } else if b == 40 {
        Some(TokenKind::LParen)
    } else if b == 41 {
        Some(TokenKind::RParen)
    } else {
        None
    }
}

/// The token stream of `s` from position `pos` on: numbers (maximal
/// digit runs, rejected where their value exceeds `u64`), the four
/// operators, parentheses, blanks skipped, and anything else an
/// invalid-character error.
pub open spec fn spec_lex_from(s: Seq<u8>, pos: int) -> Result<Seq<Token>, LexError>
    decreases s.len() - pos,
    when 0 <= pos <= s.len()
    via spec_lex_from_decreases
{
    if pos >= s.len() {
        Ok(Seq::empty())
    } else {
        let b = s[pos];
        if is_digit(b) {
            let end = digit_run_end(s, pos);
            let v = digits_value(s.subrange(pos, end));
            if v > u64::MAX {
                Err(Annot {
                    value: LexErrorKind::InvalidChar(b as char),
                    loc: Loc(pos as usize, end as usize),
                })
            } else {
                match spec_lex_from(s, end) {
                    Ok(rest) => Ok(
                        seq![
                            Annot {
                                value: TokenKind::Number(v as u64),
                                loc: Loc(pos as usize, end as usize),
                            },
                        ] + rest,
                    ),
                    Err(e) => Err(e),
                }
            }
        } else if is_space(b) {
            spec_lex_from(s, space_run_end(s, pos))
        } else {
            match operator_kind(b) {
                Some(kind) => match spec_lex_from(s, pos + 1) {
                    Ok(rest) => Ok(
                        seq![Annot { value: kind, loc: Loc(pos as usize, (pos + 1) as usize) }]
                            + rest,
                    ),
                    Err(e) => Err(e),
                },
                None => Err(Annot {
                    value: LexErrorKind::InvalidChar(b as char),
                    loc: Loc(pos as usize, (pos + 1) as usize),
                }),
            }
        }
    }
}

#[via_fn]
proof fn spec_lex_from_decreases(s: Seq<u8>, pos: int) {
    if 0 <= pos < s.len() {
        if is_digit(s[pos]) {
            lemma_digit_run_end_bounds(s, pos + 1);
        }
        if is_space(s[pos]) {
            lemma_space_run_end_bounds(s, pos + 1);
        }
    }
}

/// A prefix of tokens joined with the outcome for the remainder.
pub open spec fn lex_join(prefix: Seq<Token>, rest: Result<Seq<Token>, LexError>) -> Result<
    Seq<Token>,
    LexError,
> {
    match rest {
        Ok(ts) => Ok(prefix + ts),
        Err(e) => Err(e),
    }
}

/// Demand the byte `b` at `pos`: past the end of input this is an
/// end-of-input error, on any other byte an invalid-character error.
pub fn consume_byte(input: &[u8], pos: usize, b: u8) -> (r: Result<(u8, usize), LexError>)
    ensures
        match r {
            Ok(p) => {
                &&& pos < input@.len()
                &&& input@[pos as int] == b
                &&& p == ((b, (pos + 1) as usize))
            },
            Err(e) => {
                if pos >= input@.len() {
                    e == (Annot { value: LexErrorKind::Eof, loc: Loc(pos, pos) })
                } else {
                    &&& input@[pos as int] != b
                    &&& e == (Annot {
                        value: LexErrorKind::InvalidChar(input@[pos as int] as char),
                        loc: Loc(pos, (pos + 1) as usize),
                    })
                }
            },
        },
{
    if input.len() <= pos {
        return Err(LexError::eof(Loc(pos, pos)));
    }
    if input[pos] != b {
        return Err(LexError::invalid_char(input[pos] as char, Loc(pos, pos + 1)));
    }
    Ok((b, pos + 1))
}

/// What lexing the operator byte `b` at `pos` must yield: a token of
/// `kind` spanning that byte on success, and `consume_byte`'s error
/// otherwise.
pub open spec fn lexed_operator(
    input: Seq<u8>,
    pos: int,
    b: u8,
    kind: TokenKind,
    r: Result<(Token, usize), LexError>,
) -> bool {
    match r {
        Ok(p) => {
            &&& pos < input.len()
            &&& input[pos] == b
            &&& p == ((Annot { value: kind, loc: Loc(pos as usize, (pos + 1) as usize) }, (pos
                + 1) as usize))
        },
        Err(e) => {
            if pos >= input.len() {
                e == (Annot { value: LexErrorKind::Eof, loc: Loc(pos as usize, pos as usize) })
            } else {
                &&& input[pos] != b
                &&& e == (Annot {
                    value: LexErrorKind::InvalidChar(input[pos] as char),
                    loc: Loc(pos as usize, (pos + 1) as usize),
                })
            }
        },
    }
}

pub fn lex_plus(input: &[u8], start: usize) -> (r: Result<(Token, usize), LexError>)
    ensures
        lexed_operator(input@, start as int, 43, TokenKind::Plus, r),
{
    match consume_byte(input, start, 43) {
        Ok((_, end)) => Ok((Token::plus(Loc(start, end)), end)),
        Err(e) => Err(e),
    }
}

pub fn lex_minus(input: &[u8], start: usize) -> (r: Result<(Token, usize), LexError>)
    ensures
        lexed_operator(input@, start as int, 45, TokenKind::Minus, r),
{
    match consume_byte(input, start, 45) {
        Ok((_, end)) => Ok((Token::minus(Loc(start, end)), end)),
        Err(e) => Err(e),
    }
}

pub fn lex_asterisk(input: &[u8], start: usize) -> (r: Result<(Token, usize), LexError>)
    ensures
        lexed_operator(input@, start as int, 42, TokenKind::Asterisk, r),
{
    match consume_byte(input, start, 42) {
        Ok((_, end)) => Ok((Token::asterisk(Loc(start, end)), end)),
        Err(e) => Err(e),
    }
}

pub fn lex_slash(input: &[u8], start: usize) -> (r: Result<(Token, usize), LexError>)
    ensures
        lexed_operator(input@, start as int, 47, TokenKind::Slash, r),
{
    match consume_byte(input, start, 47) {
        Ok((_, end)) => Ok((Token::slash(Loc(start, end)), end)),
        Err(e) => Err(e),
    }
}

pub fn lex_lparen(input: &[u8], start: usize) -> (r: Result<(Token, usize), LexError>)
    ensures
        lexed_operator(input@, start as int, 40, TokenKind::LParen, r),
{
    match consume_byte(input, start, 40) {
        Ok((_, end)) => Ok((Token::lparen(Loc(start, end)), end)),
        Err(e) => Err(e),
    }
}

pub fn lex_rparen(input: &[u8], start: usize) -> (r: Result<(Token, usize), LexError>)
    ensures
        lexed_operator(input@, start as int, 41, TokenKind::RParen, r),
{
    match consume_byte(input, start, 41) {
        Ok((_, end)) => Ok((Token::rparen(Loc(start, end)), end)),
        Err(e) => Err(e),
    }
}

/// Lex the maximal digit run starting at `pos`: its value as a `Number`
/// token, or an invalid-character error at the run's first digit where
/// the value does not fit in `u64`.
pub fn lex_number(input: &[u8], pos: usize) -> (r: Result<(Token, usize), LexError>)
    requires
        pos < input@.len(),
        is_digit(input@[pos as int]),
    ensures
        match r {
            Ok(p) => {
                &&& digits_value(input@.subrange(pos as int, digit_run_end(input@, pos as int)))
                    <= u64::MAX
                &&& p == ((
                    Annot {
                        value: TokenKind::Number(
                            digits_value(
                                input@.subrange(pos as int, digit_run_end(input@, pos as int)),
                            ) as u64,
                        ),
                        loc: Loc(pos, digit_run_end(input@, pos as int) as usize),
                    },
                    digit_run_end(input@, pos as int) as usize,
                ))
            },
            Err(e) => {
                &&& digits_value(input@.subrange(pos as int, digit_run_end(input@, pos as int)))
                    > u64::MAX
                &&& e == (Annot {
                    value: LexErrorKind::InvalidChar(input@[pos as int] as char),
                    loc: Loc(pos, digit_run_end(input@, pos as int) as usize),
                })
            },
        },
{
    let ghost s = input@;
    let mut end: usize = pos;
    while end < input.len() && 48 <= input[end] && input[end] <= 57
        invariant
            pos <= end <= s.len(),
            s == input@,
            digit_run_end(s, pos as int) == digit_run_end(s, end as int),
            forall|j: int| pos <= j < end ==> is_digit(#[trigger] s[j]),
        decreases s.len() - end,
    {
        assert(digit_run_end(s, end as int) == digit_run_end(s, end + 1));
        end = end + 1;
    }
    assert(digit_run_end(s, end as int) == end);
    let ghost run = s.subrange(pos as int, end as int);
    let mut v: u64 = 0;
    let mut overflow = false;
    let mut i: usize = pos;
    while i < end
        invariant
            pos <= i <= end <= s.len(),
            s == input@,
            forall|j: int| pos <= j < end ==> is_digit(#[trigger] s[j]),
            run == s.subrange(pos as int, end as int),
            !overflow ==> v == digits_value(s.subrange(pos as int, i as int)),
            overflow ==> digits_value(s.subrange(pos as int, i as int)) > u64::MAX,
        decreases end - i,
    {
        let d = input[i] - 48;
        proof {
            assert(s.subrange(pos as int, i + 1).drop_last() =~= s.subrange(pos as int, i as int));
            assert(s.subrange(pos as int, i + 1).last() == s[i as int]);
        }
        if !overflow {
            if v <= (u64::MAX - (d as u64)) / 10 {
                v = v * 10 + (d as u64);
            } else {
                overflow = true;
            }
        }
        i = i + 1;
    }
    if overflow {
        proof {
            lemma_digits_value_prefix_le(run, end - pos);
            assert(run.take(end - pos) =~= run);
        }
        Err(LexError::invalid_char(input[pos] as char, Loc(pos, end)))
    } else {
        Ok((Token::number(v, Loc(pos, end)), end))
    }
}

/// Skip the maximal run of blanks starting at `pos`.
pub fn skip_spaces(input: &[u8], pos: usize) -> (r: ((), usize))
    requires
        pos <= input@.len(),
    ensures
        r.1 == space_run_end(input@, pos as int),
{
    let mut end: usize = pos;
    while end < input.len() && (input[end] == 32 || input[end] == 10 || input[end] == 9)
        invariant
            pos <= end <= input@.len(),
            space_run_end(input@, pos as int) == space_run_end(input@, end as int),
        decreases input@.len() - end,
    {
        assert(space_run_end(input@, end as int) == space_run_end(input@, end + 1));
        end = end + 1;
    }
    assert(space_run_end(input@, end as int) == end);
    ((), end)
}

/// Tokenize `input` in full.  The result is exactly
/// [`spec_lex_from`] of the input's bytes, from the start.
pub fn lex(input: &str) -> (r: Result<Vec<Token>, LexError>)
    ensures
        match r {
            Ok(tokens) => spec_lex_from(input.spec_bytes(), 0) == Ok::<Seq<Token>, LexError>(
                tokens@,
            ),
            Err(e) => spec_lex_from(input.spec_bytes(), 0) == Err::<Seq<Token>, LexError>(e),
        },
{
    let bytes = input.as_bytes();
    let ghost s = bytes@;
    let mut tokens: Vec<Token> = Vec::new();
    let mut pos: usize = 0;
    while pos < bytes.len()
        invariant
            pos <= s.len(),
            s == bytes@,
            s == input.spec_bytes(),
            spec_lex_from(s, 0) == lex_join(tokens@, spec_lex_from(s, pos as int)),
        decreases s.len() - pos,
    {
        let b = bytes[pos];
        let ghost tokens_before = tokens@;
        if 48 <= b && b <= 57 {
            proof {
                lemma_digit_run_end_bounds(s, pos + 1);
                assert(digit_run_end(s, pos as int) == digit_run_end(s, pos + 1));
            }
            match lex_number(bytes, pos) {
                Ok((tok, p)) => {
                    tokens.push(tok);
                    proof {
                        let rest = spec_lex_from(s, p as int);
                        if rest is Ok {
                            assert(tokens_before + (seq![tok] + rest.unwrap()) =~= tokens@
                                + rest.unwrap());
                        }
                    }
                    pos = p;
                },
                Err(e) => {
                    proof {
                        assert(spec_lex_from(s, pos as int) == Err::<Seq<Token>, LexError>(e));
                    }
                    return Err(e);
                },
            }
        } else if b == 32 || b == 10 || b == 9 {
            let (_, p) = skip_spaces(bytes, pos);
            proof {
                lemma_space_run_end_bounds(s, pos + 1);
                assert(space_run_end(s, pos as int) == space_run_end(s, pos + 1));
            }
            pos = p;
        } else {
            let r = if b == 43 {
                lex_plus(bytes, pos)
            } else if b == 45 {
                lex_minus(bytes, pos)
            } else if b == 42 {
                lex_asterisk(bytes, pos)
            } else if b == 47 {
                lex_slash(bytes, pos)
            } else if b == 40 {
                lex_lparen(bytes, pos)
            } else if b == 41 {
                lex_rparen(bytes, pos)
            } else {
                return Err(LexError::invalid_char(b as char, Loc(pos, pos + 1)));
            };
            match r {
                Ok((tok, p)) => {
                    tokens.push(tok);
                    proof {
                        let rest = spec_lex_from(s, p as int);
                        if rest is Ok {
                            assert(tokens_before + (seq![tok] + rest.unwrap()) =~= tokens@
                                + rest.unwrap());
                        }
                    }
                    pos = p;
                },
                Err(e) => {
                    return Err(e);
                },
            }
        }
    }
    proof {
        assert(tokens@ + spec_lex_from(s, pos as int).unwrap() =~= tokens@);
    }
    Ok(tokens)
}

} // verus!
