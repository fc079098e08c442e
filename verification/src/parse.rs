//! The parser for the surface syntax.
//!
//! ```text
//! expr := '`' expr expr
//!       | one of i k s d e c v r (either case) | '@' | '|'
//!       | '.' char | '?' char
//! ```
//!
//! White space and comments (`#` to the end of the line) separate tokens;
//! the character after `.` or `?` is taken as it stands.

pub mod error;
pub mod grammar;

pub use error::{ParseError, ParseErrorKind};

use crate::internals::{Expr, Func};
use crate::io::IoError;
use crate::utf8::string_from_utf8;
use crate::util::{p, P};
use error::{clip, error_at, line_col_spec, newlines, tail_len};
use grammar::{
    comment_end, is_space, lemma_comment_end, lemma_next_token, lemma_parse_advances,
    next_token, parse_expr_spec, parse_spec, primitive, trailing,
};
use vstd::prelude::*;
use vstd::slice::slice_to_vec;
use vstd::utf8::{decode_utf8, valid_utf8};

verus! {

/// Options for parsing.
#[derive(Clone, Copy, Debug)]
#[non_exhaustive]
pub struct ParseOptions {
    /// Reject input that goes on after the expression.
    pub strict: bool,
    /// Report input that goes on after the expression as a warning.
    pub log_warnings: bool,
}

impl Default for ParseOptions {
    fn default() -> (r: Self)
        ensures
            !r.strict,
            !r.log_warnings,
    {
        Self { strict: false, log_warnings: false }
    }
}

/// What parsing `s` returns: the expression, or the error with its place.
pub open spec fn outcome(s: Seq<char>, strict: bool, file: Option<String>) -> Result<
    P<Expr>,
    ParseError,
> {
    match parse_spec(s, strict) {
        Ok(e) => Ok(e),
        Err((kind, at)) => Err(error_at(s, kind, at, file)),
    }
}

/// The warning that a lenient parse of `s` gives: none unless warnings are
/// asked for, the parse is not strict and the input goes on after the
/// expression.
pub open spec fn warning(s: Seq<char>, o: ParseOptions, file: Option<String>) -> Option<
    ParseError,
> {
    match trailing(s) {
        Some((c, after)) => if !o.strict && o.log_warnings {
            Some(error_at(s, ParseErrorKind::UnexpectedChar(c), after, file))
        } else {
            None
        },
        None => None,
    }
}

fn is_whitespace(c: char) -> (r: bool)
    ensures
        r == is_space(c),
{
    let v = c as u32;
    (0x09 <= v && v <= 0x0d) || v == 0x20 || v == 0x85 || v == 0xa0 || v == 0x1680 || (0x2000 <= v
        && v <= 0x200a) || v == 0x2028 || v == 0x2029 || v == 0x202f || v == 0x205f || v == 0x3000
}

fn primitive_of(c: char) -> (r: Option<Func>)
    ensures
        r == primitive(c),
{
    if c == 'i' || c == 'I' {
        Some(Func::I)
    } else if c == 'k' || c == 'K' {
        Some(Func::K)
    } else if c == 's' || c == 'S' {
        Some(Func::S)
    } else if c == 'd' || c == 'D' {
        Some(Func::D)
    } else if c == 'e' || c == 'E' {
        Some(Func::E)
    } else if c == 'c' || c == 'C' {
        Some(Func::C)
    } else if c == 'v' || c == 'V' {
        Some(Func::V)
    } else if c == 'r' || c == 'R' {
        Some(Func::Dot('\n'))
    } else if c == '@' {
        Some(Func::At)
    } else if c == '|' {
        Some(Func::Pipe)
    } else {
        None
    }
}

/// The characters of `s`, in order.
fn chars_of(s: &str) -> (v: Vec<char>)
    ensures
        v@ == s@,
{
    let mut v: Vec<char> = Vec::new();
    for c in it: s.chars()
        invariant
            v@ == it.seq().take(it.index() as int),
            it.seq() == s@,
    {
        v.push(c);
    }
    v
}

fn clone_name(name: &Option<String>) -> (r: Option<String>)
    ensures
        r == *name,
{
    match name {
        Some(n) => Some(n.clone()),
        None => None,
    }
}

struct Parser {
    input: Vec<char>,
    src: Option<String>,
    pos: usize,
    opts: ParseOptions,
}

impl Parser {
    spec fn wf(&self) -> bool {
        self.pos <= self.input@.len()
    }

    /// Nothing but the position differs between `self` and `before`.
    spec fn advanced_from(&self, before: &Parser) -> bool {
        &&& self.wf()
        &&& self.input == before.input
        &&& self.src == before.src
        &&& self.opts == before.opts
    }

    fn new(s: &str, src: Option<String>, opts: ParseOptions) -> (r: Self)
        ensures
            r.wf(),
            r.input@ == s@,
            r.src == src,
            r.pos == 0,
            r.opts == opts,
    {
        Self { input: chars_of(s), src, pos: 0, opts }
    }

    fn line_col(&self) -> (r: (usize, usize))
        requires
            self.wf(),
        ensures
            r == line_col_spec(self.input@, self.pos as int),
    {
        self.line_col_at(self.pos)
    }

    fn line_col_at(&self, p: usize) -> (r: (usize, usize))
        requires
            p <= self.input@.len(),
        ensures
            r == line_col_spec(self.input@, p as int),
    {
        let mut line: usize = 1;
        let mut col: usize = 1;
        let mut i: usize = 0;
        while i < p
            invariant
                i <= p <= self.input@.len(),
                line == clip(1 + newlines(self.input@.take(i as int))),
                col == clip(1 + tail_len(self.input@.take(i as int))),
            decreases p - i,
        {
            assert(self.input@.take(i + 1).drop_last() == self.input@.take(i as int));
            if self.input[i] == '\n' {
                if line < usize::MAX {
                    line = line + 1;
                }
                col = 1;
            } else if col < usize::MAX {
                col = col + 1;
            }
            i = i + 1;
        }
        (line, col)
    }

    fn char_at(&self, p: usize) -> (r: Option<char>)
        ensures
            r == (if p < self.input@.len() {
                Some(self.input@[p as int])
            } else {
                None
            }),
            r is Some ==> p < usize::MAX,
    {
        if p < self.input.len() {
            Some(self.input[p])
        } else {
            None
        }
    }

    /// Skips white space and comments and takes the character after them.
    /// At the end of the input there is none, and the position is the end.
    fn try_next(&mut self) -> (r: Option<char>)
        requires
            old(self).wf(),
        ensures
            final(self).advanced_from(old(self)),
            match next_token(old(self).input@, old(self).pos as int) {
                Some((c, next)) => r == Some(c) && final(self).pos == next,
                None => r is None && final(self).pos == old(self).input@.len(),
            },
    {
        loop
            invariant
                self.advanced_from(old(self)),
                old(self).wf(),
                next_token(self.input@, self.pos as int) == next_token(
                    old(self).input@,
                    old(self).pos as int,
                ),
            decreases self.input@.len() - self.pos,
        {
            let c = match self.char_at(self.pos) {
                Some(c) => c,
                None => {
                    return None;
                },
            };
            self.pos = self.pos + 1;
            if c == '#' {
                let ghost start = self.pos;
                let mut in_comment = true;
                proof {
                    lemma_comment_end(self.input@, start as int);
                }
                while in_comment
                    invariant
                        self.advanced_from(old(self)),
                        start <= self.pos,
                        start <= comment_end(self.input@, start as int) <= self.input@.len(),
                        in_comment ==> comment_end(self.input@, self.pos as int) == comment_end(
                            self.input@,
                            start as int,
                        ),
                        !in_comment ==> self.pos == comment_end(self.input@, start as int),
                        next_token(self.input@, comment_end(self.input@, start as int))
                            == next_token(old(self).input@, old(self).pos as int),
                    decreases self.input@.len() - self.pos,
                {
                    match self.char_at(self.pos) {
                        Some(c) => {
                            self.pos = self.pos + 1;
                            if c == '\n' {
                                in_comment = false;
                            }
                        },
                        None => {
                            return None;
                        },
                    }
                }
            } else if !is_whitespace(c) {
                return Some(c);
            }
        }
    }

    fn error(&self, kind: ParseErrorKind) -> (r: ParseError)
        requires
            self.wf(),
        ensures
            r == error_at(self.input@, kind, self.pos as int, self.src),
    {
        let (line, col) = self.line_col();
        ParseError::new(kind, line, col, clone_name(&self.src))
    }

    fn next_c(&mut self) -> (r: Result<char, ParseError>)
        requires
            old(self).wf(),
        ensures
            final(self).advanced_from(old(self)),
            match next_token(old(self).input@, old(self).pos as int) {
                Some((c, next)) => r == Ok::<char, ParseError>(c) && final(self).pos == next,
                None => r == Err::<char, ParseError>(
                    error_at(
                        old(self).input@,
                        ParseErrorKind::UnexpectedEnd,
                        old(self).input@.len() as int,
                        old(self).src,
                    ),
                ) && final(self).pos == old(self).input@.len(),
            },
    {
        match self.try_next() {
            Some(c) => Ok(c),
            None => Err(self.error(ParseErrorKind::UnexpectedEnd)),
        }
    }

    fn parse_expr(&mut self) -> (r: Result<P<Expr>, ParseError>)
        requires
            old(self).wf(),
        ensures
            final(self).advanced_from(old(self)),
            match parse_expr_spec(old(self).input@, old(self).pos as int) {
                Ok((e, end)) => r == Ok::<P<Expr>, ParseError>(e) && final(self).pos == end,
                Err((kind, at)) => r == Err::<P<Expr>, ParseError>(
                    error_at(old(self).input@, kind, at, old(self).src),
                ) && final(self).pos == at,
            },
        decreases old(self).input@.len() - old(self).pos,
    {
        proof {
            lemma_next_token(self.input@, self.pos as int);
        }
        let ch = match self.next_c() {
            Ok(ch) => ch,
            Err(e) => {
                return Err(e);
            },
        };
        if ch == '`' {
            proof {
                lemma_parse_advances(self.input@, self.pos as int);
            }
            let operator = match self.parse_expr() {
                Ok(e) => e,
                Err(e) => {
                    return Err(e);
                },
            };
            let operand = match self.parse_expr() {
                Ok(e) => e,
                Err(e) => {
                    return Err(e);
                },
            };
            Ok(p(Expr::App(operator, operand)))
        } else if ch == '.' {
            match self.raw_next() {
                Ok(c) => Ok(p(Expr::Func(Func::Dot(c)))),
                Err(e) => Err(e),
            }
        } else if ch == '?' {
            match self.raw_next() {
                Ok(c) => Ok(p(Expr::Func(Func::Q(c)))),
                Err(e) => Err(e),
            }
        } else {
            match primitive_of(ch) {
                Some(f) => Ok(p(Expr::Func(f))),
                None => Err(self.error(ParseErrorKind::UnexpectedChar(ch))),
            }
        }
    }

    /// Takes the next character as it stands.
    fn raw_next(&mut self) -> (r: Result<char, ParseError>)
        requires
            old(self).wf(),
        ensures
            final(self).advanced_from(old(self)),
            old(self).pos < old(self).input@.len() ==> r == Ok::<char, ParseError>(
                old(self).input@[old(self).pos as int],
            ) && final(self).pos == old(self).pos + 1,
            old(self).pos >= old(self).input@.len() ==> r == Err::<char, ParseError>(
                error_at(
                    old(self).input@,
                    ParseErrorKind::UnexpectedEnd,
                    old(self).input@.len() as int,
                    old(self).src,
                ),
            ) && final(self).pos == old(self).pos,
    {
        match self.char_at(self.pos) {
            Some(c) => {
                self.pos = self.pos + 1;
                Ok(c)
            },
            None => Err(self.error(ParseErrorKind::UnexpectedEnd)),
        }
    }

    /// Parses the whole input; beside the expression it returns the warning,
    /// if one is due.
    fn parse(self) -> (r: Result<(P<Expr>, Option<ParseError>), ParseError>)
        requires
            self.wf(),
            self.pos == 0,
        ensures
            match outcome(self.input@, self.opts.strict, self.src) {
                Ok(e) => r == Ok::<(P<Expr>, Option<ParseError>), ParseError>(
                    (e, warning(self.input@, self.opts, self.src)),
                ),
                Err(err) => r == Err::<(P<Expr>, Option<ParseError>), ParseError>(err),
            },
    {
        let mut parser = self;
        let e = match parser.parse_expr() {
            Ok(e) => e,
            Err(err) => {
                return Err(err);
            },
        };
        proof {
            lemma_parse_advances(parser.input@, 0);
        }
        if let Some(v) = parser.try_next() {
            if parser.opts.strict {
                return Err(parser.error(ParseErrorKind::UnexpectedChar(v)));
            } else if parser.opts.log_warnings {
                let w = parser.error(ParseErrorKind::UnexpectedChar(v));
                return Ok((e, Some(w)));
            }
        }
        Ok((e, None))
    }
}

/// Parses `s`, the text of the file `file` if it came from one. Beside the
/// expression it returns the warning that is due when input goes on after
/// the expression, the parse is not strict and warnings are asked for.
pub fn parse_with_warning(s: &str, file: Option<String>, o: ParseOptions) -> (r: Result<
    (P<Expr>, Option<ParseError>),
    ParseError,
>)
    ensures
        match outcome(s@, o.strict, file) {
            Ok(e) => r == Ok::<(P<Expr>, Option<ParseError>), ParseError>(
                (e, warning(s@, o, file)),
            ),
            Err(err) => r == Err::<(P<Expr>, Option<ParseError>), ParseError>(err),
        },
{
    Parser::new(s, file, o).parse()
}

/// Parses `s`.
pub fn parse_from_str(s: &str, o: ParseOptions) -> (r: Result<P<Expr>, ParseError>)
    ensures
        r == outcome(s@, o.strict, None),
{
    match parse_with_warning(s, None, o) {
        Ok((e, _)) => Ok(e),
        Err(err) => Err(err),
    }
}

/// What reading a source that is not well-formed UTF-8 is reported as.
pub open spec fn is_invalid_utf8_error(e: ParseError) -> bool {
    &&& e.kind matches ParseErrorKind::Io(io)
    &&& !io.unexpected_eof
    &&& io.message@ == "stream did not contain valid UTF-8"@
    &&& e.line == 0
    &&& e.col == 0
    &&& e.file is None
}

/// Whether `res` is what parsing the source held in `bytes` returns: the
/// outcome for the text they encode, or the error that they cannot be read
/// as text.
pub open spec fn is_reader_outcome(
    bytes: Seq<u8>,
    strict: bool,
    res: Result<P<Expr>, ParseError>,
) -> bool {
    if valid_utf8(bytes) {
        res == outcome(decode_utf8(bytes), strict, None)
    } else {
        match res {
            Ok(_) => false,
            Err(e) => is_invalid_utf8_error(e),
        }
    }
}

/// Parses the source that the bytes `r` hold.
pub fn parse_from_reader(r: &[u8], o: ParseOptions) -> (res: Result<P<Expr>, ParseError>)
    ensures
        is_reader_outcome(r@, o.strict, res),
{
    match string_from_utf8(slice_to_vec(r)) {
        Ok(s) => parse_from_str(s.as_str(), o),
        Err(_) => Err(
            ParseError::io(
                IoError {
                    unexpected_eof: false,
                    message: "stream did not contain valid UTF-8".to_owned(),
                },
                None,
            ),
        ),
    }
}

} // verus!
