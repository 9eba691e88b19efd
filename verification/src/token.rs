use vstd::prelude::*;
use vstd::string::StringExecFns;

verus! {

/// One classified lexical unit.
///
/// The set is closed: every byte at a valid cursor position maps to exactly
/// one kind, and a byte without an explicit mapping becomes `Illegal` rather
/// than an error. The unit suffixes (`Pixel`, `Em`, `Rem`) and `Identifier`
/// are reserved for a future identifier-classification step; the character
/// dispatch never produces them.
#[derive(Debug, PartialEq, Eq)]
pub enum Token {
    /// `.`
    Dot,
    /// `,`
    Comma,
    /// `#`
    Hash,
    /// `>`
    GreaterThan,
    /// `>=`
    GreaterThanOrEqual,
    /// `<`
    LessThan,
    /// `<=`
    LessThanOrEqual,
    /// `=`
    Equal,
    /// `==`
    DoubleEqual,
    /// `(`
    OpenParens,
    /// `)`
    CloseParens,
    /// `{`
    OpenCurlyBrackets,
    /// `}`
    CloseCurlyBrackets,
    /// `+`
    Plus,
    /// `-`
    Minus,
    /// `*`
    Asterisk,
    /// `/`
    Slash,
    /// `//`
    DoubleSlash,
    /// `:`
    Colon,
    /// `$`
    Dollar,
    /// `&`
    Ampersand,
    /// `@`
    At,
    /// `%`
    Percent,
    /// `!`
    Bang,
    /// `!=`
    NotEqual,
    /// `_`
    Underscore,
    /// `'`
    Quote,
    /// `"`
    DoubleQuote,
    /// `;`
    Semicolon,
    /// `px`
    Pixel,
    /// `em`
    Em,
    /// `rem`
    Rem,
    /// ` `
    Space,
    /// `\t`
    Tab,
    /// `\r`
    CarriageReturn,
    /// `\n`
    NewLine,
    /// `EOF`
    EndOfFile,
    Identifier(String),
    Illegal(String),
}

/// Whether a token is one of the four whitespace kinds.
pub open spec fn is_ws_token(t: Token) -> bool {
    t == Token::Space || t == Token::Tab || t == Token::CarriageReturn || t == Token::NewLine
}

/// The decimal digit `d` as a character, for `0 <= d <= 9`.
pub open spec fn digit_char(d: int) -> char {
    if d == 0 {
        '0'
    } else if d == 1 {
        '1'
    } else if d == 2 {
        '2'
    } else if d == 3 {
        '3'
    } else if d == 4 {
        '4'
    } else if d == 5 {
        '5'
    } else if d == 6 {
        '6'
    } else if d == 7 {
        '7'
    } else if d == 8 {
        '8'
    } else {
        '9'
    }
}

/// The textual form of a byte: its value written in decimal, without
/// leading zeros. This is the text an `Illegal` token carries.
pub open spec fn decimal_of(b: u8) -> Seq<char> {
    if b < 10 {
        seq![digit_char(b as int)]
    } else if b < 100 {
        seq![digit_char(b as int / 10), digit_char(b as int % 10)]
    } else {
        seq![
            digit_char(b as int / 100),
            digit_char((b as int / 10) % 10),
            digit_char(b as int % 10),
        ]
    }
}

fn digit_str(d: u8) -> (r: &'static str)
    requires
        d < 10,
    ensures
        r@ == seq![digit_char(d as int)],
{
    proof {
        reveal_strlit("0");
        reveal_strlit("1");
        reveal_strlit("2");
        reveal_strlit("3");
        reveal_strlit("4");
        reveal_strlit("5");
        reveal_strlit("6");
        reveal_strlit("7");
        reveal_strlit("8");
        reveal_strlit("9");
    }
    let r = match d {
        0 => "0",
        1 => "1",
        2 => "2",
        3 => "3",
        4 => "4",
        5 => "5",
        6 => "6",
        7 => "7",
        8 => "8",
        _ => "9",
    };
    r
}

/// The decimal text of a byte, as captured by an `Illegal` token.
pub fn decimal_text(b: u8) -> (s: String)
    ensures
        s@ == decimal_of(b),
{
    if b < 10 {
        String::from_str(digit_str(b))
    } else if b < 100 {
        let mut s = String::from_str(digit_str(b / 10));
        s.append(digit_str(b % 10));
        s
    } else {
        let mut s = String::from_str(digit_str(b / 100));
        s.append(digit_str((b / 10) % 10));
        s.append(digit_str(b % 10));
        s
    }
}

/// A token paired with the byte offset of its last byte in the source
/// buffer (for the end-of-file token: the buffer's length).
#[derive(Debug, PartialEq, Eq)]
pub struct TokenData {
    pub token: Token,
    pub position: usize,
}

impl TokenData {
    pub fn new(token: Token, position: usize) -> (r: Self)
        ensures
            r.token == token,
            r.position == position,
    {
        Self { token, position }
    }

    /// Whether the held token is one of the four whitespace kinds.
    pub fn is_whitespace(&self) -> (r: bool)
        ensures
            r == is_ws_token(self.token),
    {
        matches!(
            self.token,
            Token::Space | Token::Tab | Token::CarriageReturn | Token::NewLine
        )
    }

    /// Whether the held token is the end-of-file marker.
    pub fn is_eof(&self) -> (r: bool)
        ensures
            r == (self.token == Token::EndOfFile),
    {
        matches!(self.token, Token::EndOfFile)
    }
}

} // verus!
