use crate::token::{decimal_of, decimal_text, is_ws_token, Token, TokenData};
use vstd::prelude::*;
use vstd::slice::{slice_subrange, slice_to_vec};

verus! {

// Byte values of the characters the dispatch table maps.
pub const B_DOT: u8 = 46;  // `.`
pub const B_COMMA: u8 = 44;  // `,`
pub const B_HASH: u8 = 35;  // `#`
pub const B_AT: u8 = 64;  // `@`
pub const B_AMPERSAND: u8 = 38;  // `&`
pub const B_ASTERISK: u8 = 42;  // `*`
pub const B_COLON: u8 = 58;  // `:`
pub const B_SEMICOLON: u8 = 59;  // `;`
pub const B_EQUAL: u8 = 61;  // `=`
pub const B_BANG: u8 = 33;  // `!`
pub const B_GREATER: u8 = 62;  // `>`
pub const B_LESS: u8 = 60;  // `<`
pub const B_OPEN_PARENS: u8 = 40;  // `(`
pub const B_CLOSE_PARENS: u8 = 41;  // `)`
pub const B_OPEN_CURLY: u8 = 123;  // `{`
pub const B_CLOSE_CURLY: u8 = 125;  // `}`
pub const B_SLASH: u8 = 47;  // `/`
pub const B_PLUS: u8 = 43;  // `+`
pub const B_MINUS: u8 = 45;  // `-`
pub const B_DOLLAR: u8 = 36;  // `$`
pub const B_PERCENT: u8 = 37;  // `%`
pub const B_UNDERSCORE: u8 = 95;  // `_`
pub const B_QUOTE: u8 = 39;  // `'`
pub const B_DOUBLE_QUOTE: u8 = 34;  // `"`
pub const B_SPACE: u8 = 32;  // ` `
pub const B_TAB: u8 = 9;  // `\t`
pub const B_CR: u8 = 13;  // `\r`
pub const B_LF: u8 = 10;  // `\n`

/// Whether a byte is one of the four whitespace bytes.
pub open spec fn is_ws_byte(b: u8) -> bool {
    b == B_SPACE || b == B_TAB || b == B_CR || b == B_LF
}

/// Letter bytes for identifier capture: ASCII letters, hyphen, underscore.
pub open spec fn is_letter_byte(b: u8) -> bool {
    (97 <= b && b <= 122)  // `a` to `z`
     || (65 <= b && b <= 90)  // `A` to `Z`
     || b == 45  // `-`
     || b == 95  // `_`

}

/// ASCII digit bytes.
pub open spec fn is_digit_byte(b: u8) -> bool {
    48 <= b && b <= 57  // `0` to `9`

}

/// The bytes that may begin a two-character operator.
pub open spec fn is_ambiguous_byte(b: u8) -> bool {
    b == B_EQUAL || b == B_BANG || b == B_GREATER || b == B_LESS || b == B_SLASH
}

/// The second byte that completes a two-character operator begun by `b`.
pub open spec fn pair_second(b: u8) -> u8 {
    if b == B_SLASH {
        B_SLASH
    } else {
        B_EQUAL
    }
}

/// The two-character token begun by an ambiguous byte `b`.
pub open spec fn pair_token_of(b: u8) -> Token {
    if b == B_EQUAL {
        Token::DoubleEqual
    } else if b == B_BANG {
        Token::NotEqual
    } else if b == B_GREATER {
        Token::GreaterThanOrEqual
    } else if b == B_LESS {
        Token::LessThanOrEqual
    } else {
        Token::DoubleSlash
    }
}

/// Whether a byte has an entry in the dispatch table: the fixed
/// punctuation, whitespace, and the sentinel null byte. Bytes outside the
/// table (letters, digits, anything else) scan to `Illegal`.
pub open spec fn is_table_byte(b: u8) -> bool {
    ||| b == B_DOT
    ||| b == B_COMMA
    ||| b == B_HASH
    ||| b == B_AT
    ||| b == B_AMPERSAND
    ||| b == B_ASTERISK
    ||| b == B_COLON
    ||| b == B_SEMICOLON
    ||| b == B_EQUAL
    ||| b == B_BANG
    ||| b == B_GREATER
    ||| b == B_LESS
    ||| b == B_OPEN_PARENS
    ||| b == B_CLOSE_PARENS
    ||| b == B_OPEN_CURLY
    ||| b == B_CLOSE_CURLY
    ||| b == B_SLASH
    ||| b == B_PLUS
    ||| b == B_MINUS
    ||| b == B_DOLLAR
    ||| b == B_PERCENT
    ||| b == B_UNDERSCORE
    ||| b == B_QUOTE
    ||| b == B_DOUBLE_QUOTE
    ||| is_ws_byte(b)
    ||| b == 0
}

/// The one-character token of a table byte. The sentinel null byte maps to
/// the end-of-file token, whether it stands in the buffer or marks its end.
pub open spec fn single_token_of(b: u8) -> Token {
    if b == B_DOT {
        Token::Dot
    } else if b == B_COMMA {
        Token::Comma
    } else if b == B_HASH {
        Token::Hash
    } else if b == B_AT {
        Token::At
    } else if b == B_AMPERSAND {
        Token::Ampersand
    } else if b == B_ASTERISK {
        Token::Asterisk
    } else if b == B_COLON {
        Token::Colon
    } else if b == B_SEMICOLON {
        Token::Semicolon
    } else if b == B_EQUAL {
        Token::Equal
    } else if b == B_BANG {
        Token::Bang
    } else if b == B_GREATER {
        Token::GreaterThan
    } else if b == B_LESS {
        Token::LessThan
    } else if b == B_OPEN_PARENS {
        Token::OpenParens
    } else if b == B_CLOSE_PARENS {
        Token::CloseParens
    } else if b == B_OPEN_CURLY {
        Token::OpenCurlyBrackets
    } else if b == B_CLOSE_CURLY {
        Token::CloseCurlyBrackets
    } else if b == B_SLASH {
        Token::Slash
    } else if b == B_PLUS {
        Token::Plus
    } else if b == B_MINUS {
        Token::Minus
    } else if b == B_DOLLAR {
        Token::Dollar
    } else if b == B_PERCENT {
        Token::Percent
    } else if b == B_UNDERSCORE {
        Token::Underscore
    } else if b == B_QUOTE {
        Token::Quote
    } else if b == B_DOUBLE_QUOTE {
        Token::DoubleQuote
    } else if b == B_SPACE {
        Token::Space
    } else if b == B_TAB {
        Token::Tab
    } else if b == B_CR {
        Token::CarriageReturn
    } else if b == B_LF {
        Token::NewLine
    } else {
        Token::EndOfFile
    }
}

/// Whether the token beginning at index `p` is a two-character operator:
/// an ambiguous byte immediately followed by its completion byte.
pub open spec fn two_char_at(input: Seq<u8>, p: int) -> bool {
    &&& 0 <= p
    &&& p + 1 < input.len()
    &&& is_ambiguous_byte(input[p])
    &&& input[p + 1] == pair_second(input[p])
}

/// How many bytes the token beginning at index `p` consumes.
pub open spec fn token_len_at(input: Seq<u8>, p: int) -> int {
    if two_char_at(input, p) {
        2
    } else {
        1
    }
}

/// Whether `t` is the token that one scan step produces at cursor index
/// `p`: end of file at or past the buffer's end, a two-character operator
/// where one begins, the table's one-character token on a mapped byte, and
/// otherwise `Illegal` carrying the byte's decimal text.
pub open spec fn token_at(input: Seq<u8>, p: int, t: Token) -> bool {
    if p >= input.len() {
        t == Token::EndOfFile
    } else if two_char_at(input, p) {
        t == pair_token_of(input[p])
    } else if is_table_byte(input[p]) {
        t == single_token_of(input[p])
    } else {
        t matches Token::Illegal(s) && s@ == decimal_of(input[p])
    }
}

/// The position a scan step at index `p` reports: the index of the token's
/// last byte, or the buffer's length for end of file.
pub open spec fn token_end_index(input: Seq<u8>, p: int) -> int {
    if p < input.len() {
        p + token_len_at(input, p) - 1
    } else {
        input.len() as int
    }
}

/// The cursor index after one scan step at index `p`.
pub open spec fn next_pos(input: Seq<u8>, p: int) -> int {
    if p < input.len() {
        p + token_len_at(input, p)
    } else {
        input.len() as int
    }
}

/// The first cursor index at or after `p` that does not hold a whitespace
/// byte: where the filtered stream's next token begins.
pub open spec fn filtered_pos(input: Seq<u8>, p: int) -> int
    decreases input.len() - p,
{
    if 0 <= p && p < input.len() && is_ws_byte(input[p]) {
        filtered_pos(input, p + 1)
    } else {
        p
    }
}

/// A single-pass scanner over a byte buffer.
///
/// The cursor stages one byte ahead: after construction and after every
/// token, `c` holds the byte at `position` (or nothing at the buffer's
/// end), and `read_position` is the index of the next unread byte.
pub struct Lexer {
    input: Vec<u8>,
    position: usize,
    read_position: usize,
    c: Option<u8>,
}

impl Lexer {
    /// The scanner's source buffer.
    pub closed spec fn bytes(self) -> Seq<u8> {
        self.input@
    }

    /// The cursor: the index of the staged byte, or the buffer's length
    /// once every byte is consumed.
    pub closed spec fn pos(self) -> int {
        self.position as int
    }

    /// Cursor well-formedness: the staged byte mirrors the buffer at the
    /// cursor, and the read position stands one step ahead until the end.
    pub closed spec fn wf(self) -> bool {
        &&& self.position <= self.input@.len()
        &&& (self.position < self.input@.len() ==> {
            &&& self.read_position == self.position + 1
            &&& self.c == Some(self.input@[self.position as int])
        })
        &&& (self.position == self.input@.len() ==> {
            &&& self.read_position == self.input@.len()
            &&& self.c is None
        })
    }

    /// The cursor of a well-formed scanner lies within the buffer.
    pub proof fn lemma_cursor_bounds(self)
        requires
            self.wf(),
        ensures
            0 <= self.pos() <= self.bytes().len(),
    {
    }

    /// Advances the cursor one step and stages the next byte. The cursor
    /// halts at the buffer's end, so pulls at end of file stay in bounds.
    fn read_char(&mut self)
        requires
            old(self).read_position <= old(self).input@.len(),
        ensures
            final(self).input == old(self).input,
            old(self).read_position < old(self).input@.len() ==> {
                &&& final(self).position == old(self).read_position
                &&& final(self).read_position == old(self).read_position + 1
                &&& final(self).c == Some(old(self).input@[old(self).read_position as int])
            },
            old(self).read_position == old(self).input@.len() ==> {
                &&& final(self).position == old(self).input@.len()
                &&& final(self).read_position == old(self).input@.len()
                &&& final(self).c is None
            },
    {
        if self.read_position < self.input.len() {
            self.c = Some(self.input[self.read_position]);
            self.position = self.read_position;
            self.read_position = self.read_position + 1;
        } else {
            self.c = None;
            self.position = self.input.len();
            self.read_position = self.input.len();
        }
    }

    /// Builds a scanner over `input`, primed so that the first byte is
    /// staged before any token is requested.
    pub fn new(input: Vec<u8>) -> (s: Self)
        ensures
            s.wf(),
            s.bytes() == input@,
            s.pos() == 0,
    {
        let mut s = Self { input, position: 0, read_position: 0, c: None };
        s.read_char();
        s
    }

    /// Whether the staged byte is an identifier letter.
    pub fn is_c_letter(&self) -> (r: bool)
        requires
            self.wf(),
        ensures
            r == (self.pos() < self.bytes().len() && is_letter_byte(self.bytes()[self.pos()])),
    {
        match self.c {
            Some(cb) => (97 <= cb && cb <= 122) || (65 <= cb && cb <= 90) || cb == 45 || cb == 95,
            None => false,
        }
    }

    /// Whether the staged byte is an ASCII digit.
    pub fn is_c_digit(&self) -> (r: bool)
        requires
            self.wf(),
        ensures
            r == (self.pos() < self.bytes().len() && is_digit_byte(self.bytes()[self.pos()])),
    {
        match self.c {
            Some(cb) => 48 <= cb && cb <= 57,
            None => false,
        }
    }

    /// The next unread byte, one past the staged byte, without consuming.
    fn peek_char(&self) -> (r: Option<u8>)
        requires
            self.wf(),
        ensures
            r == (if self.read_position < self.input@.len() {
                Some(self.input@[self.read_position as int])
            } else {
                None::<u8>
            }),
    {
        if self.read_position < self.input.len() {
            Some(self.input[self.read_position])
        } else {
            None
        }
    }

    /// Captures identifier text: starting one byte past the current
    /// position, advances while the staged byte is a letter, hyphen or
    /// underscore, and returns the captured range. A capability offered
    /// beside the dispatch table, not invoked by it.
    pub fn read_indentifier(&mut self) -> (r: Vec<u8>)
        requires
            old(self).wf(),
            old(self).pos() < old(self).bytes().len(),
        ensures
            final(self).wf(),
            final(self).bytes() == old(self).bytes(),
            old(self).pos() + 1 <= final(self).pos() <= final(self).bytes().len(),
            forall|i: int|
                old(self).pos() + 1 <= i < final(self).pos() ==> is_letter_byte(
                    final(self).bytes()[i],
                ),
            final(self).pos() < final(self).bytes().len() ==> !is_letter_byte(
                final(self).bytes()[final(self).pos()],
            ),
            r@ == old(self).bytes().subrange(old(self).pos() + 1, final(self).pos()),
    {
        let pos = self.position + 1;
        self.read_char();
        loop
            invariant
                self.wf(),
                self.input@ == old(self).bytes(),
                pos as int <= self.pos() <= self.bytes().len(),
                forall|i: int| pos as int <= i < self.pos() ==> is_letter_byte(self.bytes()[i]),
            ensures
                self.wf(),
                self.input@ == old(self).bytes(),
                pos as int <= self.pos() <= self.bytes().len(),
                forall|i: int| pos as int <= i < self.pos() ==> is_letter_byte(self.bytes()[i]),
                !(self.pos() < self.bytes().len() && is_letter_byte(self.bytes()[self.pos()])),
            decreases self.bytes().len() - self.pos(),
        {
            if !self.is_c_letter() {
                break;
            }
            self.read_char();
        }
        let captured = slice_subrange(self.input.as_slice(), pos, self.position);
        slice_to_vec(captured)
    }

    /// Produces the next raw token: dispatches on the staged byte (with
    /// one-byte lookahead for the two-character operators), advances the
    /// cursor past the token, and tags the token with the index of its
    /// last byte (the buffer's length for end of file).
    pub fn next_token(&mut self) -> (r: TokenData)
        requires
            old(self).wf(),
        ensures
            final(self).wf(),
            final(self).bytes() == old(self).bytes(),
            token_at(old(self).bytes(), old(self).pos(), r.token),
            r.position == token_end_index(old(self).bytes(), old(self).pos()),
            final(self).pos() == next_pos(old(self).bytes(), old(self).pos()),
    {
        let b = match self.c {
            Some(x) => x,
            None => 0,
        };
        let token = match b {
            B_DOT => Token::Dot,
            B_COMMA => Token::Comma,
            B_HASH => Token::Hash,
            B_AT => Token::At,
            B_AMPERSAND => Token::Ampersand,
            B_ASTERISK => Token::Asterisk,
            B_COLON => Token::Colon,
            B_SEMICOLON => Token::Semicolon,
            B_EQUAL => {
                let paired = match self.peek_char() {
                    Some(nb) => nb == B_EQUAL,
                    None => false,
                };
                if paired {
                    self.read_char();
                    Token::DoubleEqual
                } else {
                    Token::Equal
                }
            },
            B_BANG => {
                let paired = match self.peek_char() {
                    Some(nb) => nb == B_EQUAL,
                    None => false,
                };
                if paired {
                    self.read_char();
                    Token::NotEqual
                } else {
                    Token::Bang
                }
            },
            B_GREATER => {
                let paired = match self.peek_char() {
                    Some(nb) => nb == B_EQUAL,
                    None => false,
                };
                if paired {
                    self.read_char();
                    Token::GreaterThanOrEqual
                } else {
                    Token::GreaterThan
                }
            },
            B_LESS => {
                let paired = match self.peek_char() {
                    Some(nb) => nb == B_EQUAL,
                    None => false,
                };
                if paired {
                    self.read_char();
                    Token::LessThanOrEqual
                } else {
                    Token::LessThan
                }
            },
            B_OPEN_PARENS => Token::OpenParens,
            B_CLOSE_PARENS => Token::CloseParens,
            B_OPEN_CURLY => Token::OpenCurlyBrackets,
            B_CLOSE_CURLY => Token::CloseCurlyBrackets,
            B_PLUS => Token::Plus,
            B_MINUS => Token::Minus,
            B_DOLLAR => Token::Dollar,
            B_PERCENT => Token::Percent,
            B_UNDERSCORE => Token::Underscore,
            B_QUOTE => Token::Quote,
            B_DOUBLE_QUOTE => Token::DoubleQuote,
            B_SLASH => {
                let paired = match self.peek_char() {
                    Some(nb) => nb == B_SLASH,
                    None => false,
                };
                if paired {
                    self.read_char();
                    Token::DoubleSlash
                } else {
                    Token::Slash
                }
            },
            B_SPACE => Token::Space,
            B_TAB => Token::Tab,
            B_CR => Token::CarriageReturn,
            B_LF => Token::NewLine,
            0 => Token::EndOfFile,
            other => Token::Illegal(decimal_text(other)),
        };
        let end = self.position;
        self.read_char();
        TokenData::new(token, end)
    }

    /// Pulls the next token of the filtered stream: whitespace tokens are
    /// discarded, and the end-of-file token ends the stream as `None`. The
    /// end-of-file token is never consumed, so a `None` is permanent: the
    /// cursor halts in front of it and every later pull is `None` again.
    pub fn next(&mut self) -> (r: Option<TokenData>)
        requires
            old(self).wf(),
        ensures
            final(self).wf(),
            final(self).bytes() == old(self).bytes(),
            ({
                let q = filtered_pos(old(self).bytes(), old(self).pos());
                if q == old(self).bytes().len() || old(self).bytes()[q] == 0 {
                    r is None && final(self).pos() == q
                } else {
                    r matches Some(td) && token_at(old(self).bytes(), q, td.token)
                        && !is_ws_token(td.token) && td.token != Token::EndOfFile
                        && td.position == token_end_index(old(self).bytes(), q)
                        && final(self).pos() == next_pos(old(self).bytes(), q)
                }
            }),
    {
        loop
            invariant
                self.wf(),
                self.input@ == old(self).bytes(),
                filtered_pos(old(self).bytes(), self.pos()) == filtered_pos(
                    old(self).bytes(),
                    old(self).pos(),
                ),
            decreases old(self).bytes().len() - self.pos(),
        {
            let at_eof = match self.c {
                Some(cb) => cb == 0,
                None => true,
            };
            if at_eof {
                return None;
            }
            let td = self.next_token();
            if !td.is_whitespace() {
                return Some(td);
            }
        }
    }
}

/// Law: a one-byte buffer holding a mapped punctuation byte scans to that
/// byte's one-character token, followed by end of file.
pub proof fn lemma_single_punct(b: u8)
    requires
        is_table_byte(b),
        !is_ws_byte(b),
        b != 0,
    ensures
        forall|t: Token| token_at(seq![b], 0, t) <==> t == single_token_of(b),
        token_end_index(seq![b], 0) == 0,
        next_pos(seq![b], 0) == 1,
        forall|t: Token| token_at(seq![b], 1, t) <==> t == Token::EndOfFile,
{
}

/// Law: an ambiguous byte followed by its completion byte scans to the one
/// two-character token, with end of file after it; alone, or followed by
/// any other byte, it scans to its one-character token.
pub proof fn lemma_two_char_operator(b: u8, b2: u8)
    requires
        is_ambiguous_byte(b),
    ensures
        b2 == pair_second(b) ==> (forall|t: Token|
            token_at(seq![b, b2], 0, t) <==> t == pair_token_of(b)),
        b2 == pair_second(b) ==> token_end_index(seq![b, b2], 0) == 1 && next_pos(seq![b, b2], 0)
            == 2,
        b2 == pair_second(b) ==> (forall|t: Token|
            token_at(seq![b, b2], 2, t) <==> t == Token::EndOfFile),
        b2 != pair_second(b) ==> (forall|t: Token|
            token_at(seq![b, b2], 0, t) <==> t == single_token_of(b)),
        b2 != pair_second(b) ==> token_end_index(seq![b, b2], 0) == 0 && next_pos(seq![b, b2], 0)
            == 1,
        forall|t: Token| token_at(seq![b], 0, t) <==> t == single_token_of(b),
{
}

/// Law: a byte without a dispatch entry scans to an `Illegal` token that
/// carries the byte's decimal text, and the cursor still advances past it,
/// so scanning never halts on unrecognized input.
pub proof fn lemma_illegal_byte(input: Seq<u8>, p: int)
    requires
        0 <= p < input.len(),
        !is_table_byte(input[p]),
    ensures
        forall|t: Token|
            token_at(input, p, t) <==> (t matches Token::Illegal(s) && s@ == decimal_of(input[p])),
        token_len_at(input, p) == 1,
        token_end_index(input, p) == p,
        next_pos(input, p) == p + 1,
{
}

/// Law: a scan step before the buffer's end moves the cursor forward by
/// the token's length and never past the end, so raw scanning always
/// reaches end of file, whatever the buffer holds.
pub proof fn lemma_scan_progress(input: Seq<u8>, p: int)
    requires
        0 <= p < input.len(),
    ensures
        p < next_pos(input, p) <= input.len(),
        next_pos(input, p) == p + token_len_at(input, p),
{
}

/// Law: at the buffer's end one scan step yields the end-of-file token and
/// leaves the cursor where it stands, so repeated raw pulls at end of file
/// keep yielding end of file at the same position.
pub proof fn lemma_eof_idempotent(input: Seq<u8>)
    ensures
        forall|t: Token| token_at(input, input.len() as int, t) <==> t == Token::EndOfFile,
        token_end_index(input, input.len() as int) == input.len(),
        next_pos(input, input.len() as int) == input.len(),
{
}

} // verus!


