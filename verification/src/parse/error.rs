//! Parse errors: their kinds, their place in the text and their wording.

use crate::io::IoError;
use vstd::prelude::*;
use vstd::string::StringExecFns;

verus! {

#[derive(Debug)]
#[non_exhaustive]
pub enum ParseErrorKind {
    /// The input ended where an expression or a character was due.
    UnexpectedEnd,
    /// The character cannot start an expression here.
    UnexpectedChar(char),
    /// The source could not be read.
    Io(IoError),
}

/// A parse error and where it arose: the line and column, both counted
/// from 1, of the position that the parser had reached.
#[derive(Debug)]
pub struct ParseError {
    pub kind: ParseErrorKind,
    pub line: usize,
    pub col: usize,
    pub file: Option<String>,
}

/// Number of newlines in `s`.
pub open spec fn newlines(s: Seq<char>) -> nat
    decreases s.len(),
{
    if s.len() == 0 {
        0
    } else {
        newlines(s.drop_last()) + if s.last() == '\n' {
            1nat
        } else {
            0nat
        }
    }
}

/// Number of characters of `s` after its last newline.
pub open spec fn tail_len(s: Seq<char>) -> nat
    decreases s.len(),
{
    if s.len() == 0 || s.last() == '\n' {
        0
    } else {
        tail_len(s.drop_last()) + 1
    }
}

/// `n`, or the largest `usize` if `n` is larger.
pub open spec fn clip(n: nat) -> usize {
    if n <= usize::MAX {
        n as usize
    } else {
        usize::MAX
    }
}

/// Line and column of position `pos` in `s`, both counted from 1: one more
/// than the number of newlines before `pos`, and one more than the number of
/// characters between the last of them and `pos`.
pub open spec fn line_col_spec(s: Seq<char>, pos: int) -> (usize, usize) {
    (clip(1 + newlines(s.take(pos))), clip(1 + tail_len(s.take(pos))))
}

/// The error of kind `kind` that arises at position `pos` of `s`.
pub open spec fn error_at(
    s: Seq<char>,
    kind: ParseErrorKind,
    pos: int,
    file: Option<String>,
) -> ParseError {
    ParseError { kind, line: line_col_spec(s, pos).0, col: line_col_spec(s, pos).1, file }
}

impl ParseError {
    /// The file that the source came from, if it came from one.
    pub fn file(&self) -> (r: Option<&str>)
        ensures
            r is Some == self.file is Some,
            r matches Some(name) ==> name@ == self.file->0@,
    {
        match &self.file {
            Some(name) => Some(name.as_str()),
            None => None,
        }
    }

    /// Line and column, both counted from 1; both 0 where the error has no
    /// place in the text.
    pub fn line_col(&self) -> (r: (usize, usize))
        ensures
            r == (self.line, self.col),
    {
        (self.line, self.col)
    }

    /// Whether the error is that the input ended too early.
    pub fn is_eof(&self) -> (r: bool)
        ensures
            r == match self.kind {
                ParseErrorKind::UnexpectedEnd => true,
                ParseErrorKind::Io(io) => io.unexpected_eof,
                ParseErrorKind::UnexpectedChar(_) => false,
            },
    {
        match &self.kind {
            ParseErrorKind::UnexpectedEnd => true,
            ParseErrorKind::Io(io) => io.unexpected_eof,
            ParseErrorKind::UnexpectedChar(_) => false,
        }
    }

    pub fn kind(&self) -> (r: &ParseErrorKind)
        ensures
            *r == self.kind,
    {
        &self.kind
    }

    pub fn new(kind: ParseErrorKind, line: usize, col: usize, file: Option<String>) -> (r: Self)
        ensures
            r == (ParseError { kind, line, col, file }),
    {
        Self { kind, line, col, file }
    }

    /// The error that the source could not be read: it has no place in the
    /// text.
    pub fn io(io: IoError, file: Option<String>) -> (r: Self)
        ensures
            r == (ParseError { kind: ParseErrorKind::Io(io), line: 0, col: 0, file }),
    {
        Self::new(ParseErrorKind::Io(io), 0, 0, file)
    }
}

/// The decimal digit for `d`.
pub open spec fn digit(d: nat) -> char {
    if d == 0 {
        '0'
    } else if d == 1 {
        '1'
    } else if d == 2 {
        '2'
    } else if d == 3 {
        '3'
    } else if d == 4 {
        '4'
    } else if d == 5 {
        '5'
    } else if d == 6 {
        '6'
    } else if d == 7 {
        '7'
    } else if d == 8 {
        '8'
    } else {
        '9'
    }
}

/// `n` in decimal digits, without leading zeros.
pub open spec fn decimal(n: nat) -> Seq<char>
    decreases n,
{
    if n < 10 {
        seq![digit(n)]
    } else {
        decimal(n / 10).push(digit(n % 10))
    }
}

/// How `{:?}` formats the character `c`: between single quotes, escaped
/// where it would not print as itself.
pub uninterp spec fn char_debug_text(c: char) -> Seq<char>;

/// The `Debug` format of `char`.
#[verifier::external_body]
fn char_debug(c: char) -> (s: String)
    ensures
        s@ == char_debug_text(c),
{
    format!("{:?}", c)
}

/// What went wrong, in words; `shown` is how the character is written
/// where the error names one.
pub open spec fn kind_text(kind: ParseErrorKind, shown: Seq<char>) -> Seq<char> {
    match kind {
        ParseErrorKind::UnexpectedEnd => "unexpected end of input"@,
        ParseErrorKind::UnexpectedChar(_) => "unexpected character "@ + shown,
        ParseErrorKind::Io(io) => io.message@,
    }
}

/// Where it went wrong, in words; nothing where both are 0.
pub open spec fn place_text(line: usize, col: usize) -> Seq<char> {
    if line == 0 && col == 0 {
        Seq::empty()
    } else if line == 0 {
        " at column "@ + decimal(col as nat)
    } else {
        " at line "@ + decimal(line as nat) + ", column "@ + decimal(col as nat)
    }
}

/// The file, in words, where there is one.
pub open spec fn file_text(file: Option<String>) -> Seq<char> {
    match file {
        Some(name) => " in `"@ + name@ + "`"@,
        None => Seq::empty(),
    }
}

fn digit_str(d: usize) -> (r: &'static str)
    requires
        d < 10,
    ensures
        r@ == seq![digit(d as nat)],
{
    proof {
        reveal_strlit("0");
        reveal_strlit("1");
        reveal_strlit("2");
        reveal_strlit("3");
        reveal_strlit("4");
        reveal_strlit("5");
        reveal_strlit("6");
        reveal_strlit("7");
        reveal_strlit("8");
        reveal_strlit("9");
    }
    let r = if d == 0 {
        "0"
    } else if d == 1 {
        "1"
    } else if d == 2 {
        "2"
    } else if d == 3 {
        "3"
    } else if d == 4 {
        "4"
    } else if d == 5 {
        "5"
    } else if d == 6 {
        "6"
    } else if d == 7 {
        "7"
    } else if d == 8 {
        "8"
    } else {
        "9"
    };
    r
}

/// Appends `n` in decimal to `out`.
fn push_decimal(out: &mut String, n: usize)
    ensures
        final(out)@ == old(out)@ + decimal(n as nat),
    decreases n,
{
    if n >= 10 {
        push_decimal(out, n / 10);
    }
    let ghost before = out@;
    out.append(digit_str(n % 10));
    assert(out@ == old(out)@ + decimal(n as nat)) by {
        if n >= 10 {
            let last = digit((n % 10) as nat);
            assert(before + seq![last] =~= old(out)@ + decimal((n / 10) as nat).push(last));
        }
    }
}

impl ParseError {
    /// The text of the error: what went wrong, then where, then in which
    /// file; `shown` is how the character is written where the error names
    /// one.
    pub open spec fn text_with(self, shown: Seq<char>) -> Seq<char> {
        kind_text(self.kind, shown) + place_text(self.line, self.col) + file_text(self.file)
    }

    /// The text of the error, with the character that it names in the
    /// `Debug` format.
    pub open spec fn text(self) -> Seq<char> {
        self.text_with(
            match self.kind {
                ParseErrorKind::UnexpectedChar(c) => char_debug_text(c),
                _ => Seq::empty(),
            },
        )
    }

    /// The error as a message for people, with `shown` for the character
    /// that it names.
    pub fn describe(&self, shown: &str) -> (s: String)
        ensures
            s@ == self.text_with(shown@),
    {
        let mut s = match &self.kind {
            ParseErrorKind::UnexpectedEnd => "unexpected end of input".to_owned(),
            ParseErrorKind::UnexpectedChar(_) => {
                let mut s = "unexpected character ".to_owned();
                s.append(shown);
                s
            },
            ParseErrorKind::Io(io) => io.message.clone(),
        };
        if self.line == 0 && self.col == 0 {
        } else if self.line == 0 {
            s.append(" at column ");
            push_decimal(&mut s, self.col);
        } else {
            s.append(" at line ");
            push_decimal(&mut s, self.line);
            s.append(", column ");
            push_decimal(&mut s, self.col);
        }
        if let Some(name) = &self.file {
            s.append(" in `");
            s.append(name.as_str());
            s.append("`");
        }
        s
    }

    /// The error as a message for people.
    pub fn to_string(&self) -> (s: String)
        ensures
            s@ == self.text(),
    {
        match &self.kind {
            ParseErrorKind::UnexpectedChar(c) => self.describe(char_debug(*c).as_str()),
            _ => {
                proof {
                    reveal_strlit("");
                }
                self.describe("")
            },
        }
    }
}

} // verus!
