//! The grammar, as functions on the characters of a source.

use crate::internals::{app, quote, Expr, Func};
use crate::parse::error::ParseErrorKind;
use crate::util::P;
use vstd::prelude::*;

verus! {

/// The characters that separate tokens: those with the Unicode property
/// `White_Space`.
pub open spec fn is_space(c: char) -> bool {
    let v = c as u32;
    ||| 0x09 <= v <= 0x0d
    ||| v == 0x20
    ||| v == 0x85
    ||| v == 0xa0
    ||| v == 0x1680
    ||| 0x2000 <= v <= 0x200a
    ||| v == 0x2028
    ||| v == 0x2029
    ||| v == 0x202f
    ||| v == 0x205f
    ||| v == 0x3000
}

/// The position after the comment that goes on at `pos`: after the next
/// newline, or the end of the input.
pub open spec fn comment_end(s: Seq<char>, pos: int) -> int
    decreases s.len() - pos,
{
    if pos < 0 || pos >= s.len() {
        s.len() as int
    } else if s[pos] == '\n' {
        pos + 1
    } else {
        comment_end(s, pos + 1)
    }
}

/// The first character at or after `pos` that is neither white space nor
/// part of a comment, with the position after it.
pub open spec fn next_token(s: Seq<char>, pos: int) -> Option<(char, int)>
    decreases s.len() - pos,
{
    if pos < 0 || pos >= s.len() {
        None
    } else if s[pos] == '#' {
        let end = comment_end(s, pos + 1);
        if pos < end <= s.len() {
            next_token(s, end)
        } else {
            None
        }
    } else if is_space(s[pos]) {
        next_token(s, pos + 1)
    } else {
        Some((s[pos], pos + 1))
    }
}

/// The value that a one-character token stands for.
pub open spec fn primitive(c: char) -> Option<Func> {
    if c == 'i' || c == 'I' {
        Some(Func::I)
    } else if c == 'k' || c == 'K' {
        Some(Func::K)
    } else if c == 's' || c == 'S' {
        Some(Func::S)
    } else if c == 'd' || c == 'D' {
        Some(Func::D)
    } else if c == 'e' || c == 'E' {
        Some(Func::E)
    } else if c == 'c' || c == 'C' {
        Some(Func::C)
    } else if c == 'v' || c == 'V' {
        Some(Func::V)
    } else if c == 'r' || c == 'R' {
        Some(Func::Dot('\n'))
    } else if c == '@' {
        Some(Func::At)
    } else if c == '|' {
        Some(Func::Pipe)
    } else {
        None
    }
}

/// The expression that starts at `pos` and the position after it, or the
/// kind of error and the position at which it arises.
///
/// The tests on `next` and `mid` only serve to show that the definition is
/// well founded: by [`lemma_next_token`] and [`lemma_parse_advances`] they
/// never fail.
pub open spec fn parse_expr_spec(s: Seq<char>, pos: int) -> Result<
    (P<Expr>, int),
    (ParseErrorKind, int),
>
    decreases s.len() - pos,
{
    match next_token(s, pos) {
        None => Err((ParseErrorKind::UnexpectedEnd, s.len() as int)),
        Some((c, next)) => if !(pos < next <= s.len()) {
            Err((ParseErrorKind::UnexpectedEnd, s.len() as int))
        } else if c == '`' {
            match parse_expr_spec(s, next) {
                Err(e) => Err(e),
                Ok((operator, mid)) => if !(pos < mid <= s.len()) {
                    Err((ParseErrorKind::UnexpectedEnd, s.len() as int))
                } else {
                    match parse_expr_spec(s, mid) {
                        Err(e) => Err(e),
                        Ok((operand, end)) => Ok((app(operator, operand), end)),
                    }
                },
            }
        } else if c == '.' || c == '?' {
            if next < s.len() {
                Ok(
                    (
                        quote(
                            if c == '.' {
                                Func::Dot(s[next])
                            } else {
                                Func::Q(s[next])
                            },
                        ),
                        next + 1,
                    ),
                )
            } else {
                Err((ParseErrorKind::UnexpectedEnd, s.len() as int))
            }
        } else {
            match primitive(c) {
                Some(f) => Ok((quote(f), next)),
                None => Err((ParseErrorKind::UnexpectedChar(c), next)),
            }
        },
    }
}

/// The outcome of parsing `s` as a program. Input that goes on after the
/// expression is an error when `strict`, and ignored otherwise.
pub open spec fn parse_spec(s: Seq<char>, strict: bool) -> Result<P<Expr>, (ParseErrorKind, int)> {
    match parse_expr_spec(s, 0) {
        Err(e) => Err(e),
        Ok((e, end)) => match next_token(s, end) {
            Some((c, after)) => if strict {
                Err((ParseErrorKind::UnexpectedChar(c), after))
            } else {
                Ok(e)
            },
            None => Ok(e),
        },
    }
}

/// The input that goes on after the expression, if `s` holds an expression
/// and then another token: the token and the position after it.
pub open spec fn trailing(s: Seq<char>) -> Option<(char, int)> {
    match parse_expr_spec(s, 0) {
        Err(_) => None,
        Ok((_, end)) => next_token(s, end),
    }
}

/// A comment ends after the position where it goes on, and within the input.
pub proof fn lemma_comment_end(s: Seq<char>, pos: int)
    requires
        0 <= pos <= s.len(),
    ensures
        pos <= comment_end(s, pos) <= s.len(),
        pos < s.len() ==> pos < comment_end(s, pos),
    decreases s.len() - pos,
{
    if pos < s.len() && s[pos] != '\n' {
        lemma_comment_end(s, pos + 1);
    }
}

/// A token ends after the position where the search for it started, and
/// within the input; it is neither white space nor `#`.
pub proof fn lemma_next_token(s: Seq<char>, pos: int)
    requires
        0 <= pos <= s.len(),
    ensures
        next_token(s, pos) matches Some((c, next)) ==> pos < next <= s.len() && c == s[next - 1]
            && !is_space(c) && c != '#',
    decreases s.len() - pos,
{
    if pos < s.len() {
        if s[pos] == '#' {
            lemma_comment_end(s, pos + 1);
            lemma_next_token(s, comment_end(s, pos + 1));
        } else if is_space(s[pos]) {
            lemma_next_token(s, pos + 1);
        }
    }
}

/// An expression ends after the position where it starts, and within the
/// input; an error arises within the input.
pub proof fn lemma_parse_advances(s: Seq<char>, pos: int)
    requires
        0 <= pos <= s.len(),
    ensures
        parse_expr_spec(s, pos) matches Ok((_, end)) ==> pos < end <= s.len(),
        parse_expr_spec(s, pos) matches Err((_, at)) ==> pos <= at <= s.len(),
    decreases s.len() - pos,
{
    lemma_next_token(s, pos);
    match next_token(s, pos) {
        None => {},
        Some((c, next)) => {
            if c == '`' {
                lemma_parse_advances(s, next);
                match parse_expr_spec(s, next) {
                    Err(_) => {},
                    Ok((_, mid)) => {
                        lemma_parse_advances(s, mid);
                    },
                }
            }
        },
    }
}

/// How the value `f` is written, if it can be: the partially applied
/// operators have no notation, and the newline printer is written as the
/// printer of its character.
pub open spec fn token_of(f: Func) -> Option<Seq<char>> {
    match f {
        Func::I => Some(seq!['i']),
        Func::K => Some(seq!['k']),
        Func::S => Some(seq!['s']),
        Func::D => Some(seq!['d']),
        Func::E => Some(seq!['e']),
        Func::C => Some(seq!['c']),
        Func::V => Some(seq!['v']),
        Func::At => Some(seq!['@']),
        Func::Pipe => Some(seq!['|']),
        Func::Dot(c) => Some(seq!['.', c]),
        Func::Q(c) => Some(seq!['?', c]),
        Func::R => None,
        Func::Op(_) => None,
    }
}

/// Whether `e` can be written as a source: all its values can.
pub open spec fn writable(e: P<Expr>) -> bool
    decreases e,
{
    match *e.0 {
        Expr::Func(f) => token_of(f) is Some,
        Expr::App(operator, operand) => writable(operator) && writable(operand),
    }
}

/// The source of `e`, without white space.
pub open spec fn show(e: P<Expr>) -> Seq<char>
    decreases e,
{
    match *e.0 {
        Expr::Func(f) => match token_of(f) {
            Some(t) => t,
            None => Seq::empty(),
        },
        Expr::App(operator, operand) => seq!['`'] + show(operator) + show(operand),
    }
}

/// Wherever the source of a writable expression stands in a text, the
/// parser reads the expression there and stops after it.
pub proof fn lemma_parse_show(e: P<Expr>, s: Seq<char>, pos: int)
    requires
        writable(e),
        0 <= pos,
        pos + show(e).len() <= s.len(),
        s.subrange(pos, pos + show(e).len()) == show(e),
    ensures
        parse_expr_spec(s, pos) == Ok::<(P<Expr>, int), (ParseErrorKind, int)>(
            (e, pos + show(e).len()),
        ),
    decreases e,
{
    let text = show(e);
    assert(forall|i: int| 0 <= i < text.len() ==> s[pos + i] == #[trigger] text[i]) by {
        assert forall|i: int| 0 <= i < text.len() implies s[pos + i] == #[trigger] text[i] by {
            assert(s.subrange(pos, pos + text.len())[i] == s[pos + i]);
        }
    }
    match *e.0 {
        Expr::Func(f) => {
            assert(text[0] == s[pos]);
            if f is Dot || f is Q {
                assert(text[1] == s[pos + 1]);
            }
        },
        Expr::App(operator, operand) => {
            let a = show(operator);
            let b = show(operand);
            assert(text[0] == '`');
            assert(s[pos] == '`');
            assert(s.subrange(pos + 1, pos + 1 + a.len()) =~= a) by {
                assert forall|i: int| 0 <= i < a.len() implies s[pos + 1 + i] == a[i] by {
                    assert(text[1 + i] == a[i]);
                }
            }
            lemma_parse_show(operator, s, pos + 1);
            assert(s.subrange(pos + 1 + a.len(), pos + 1 + a.len() + b.len()) =~= b) by {
                assert forall|i: int| 0 <= i < b.len() implies s[pos + 1 + a.len() + i] == b[i] by {
                    assert(text[1 + a.len() + i] == b[i]);
                }
            }
            lemma_parse_show(operand, s, pos + 1 + a.len());
        },
    }
}

} // verus!
