use unlambda::internals::{Cont, Func, Task};
use unlambda::io::{Ctx, Output};
use unlambda::utf8::{encode_char, text_from, utf8_char_width, REPLACEMENT};
use unlambda::{eval_to_string, eval_to_vec, Input, P};

const CAT: &str = "``cd``d`@|`cd";

fn cat(input: &[u8]) -> Vec<u8> {
    eval_to_vec(CAT, Input::Bytes(input)).unwrap()
}

fn encoded(c: char) -> Vec<u8> {
    let mut out = Vec::new();
    encode_char(c, &mut out);
    out
}

#[test]
fn width_by_leading_byte() {
    assert_eq!(utf8_char_width(0x00), 1);
    assert_eq!(utf8_char_width(0x7f), 1);
    assert_eq!(utf8_char_width(0x80), 0);
    assert_eq!(utf8_char_width(0xbf), 0);
    assert_eq!(utf8_char_width(0xc0), 2);
    assert_eq!(utf8_char_width(0xdf), 2);
    assert_eq!(utf8_char_width(0xe0), 3);
    assert_eq!(utf8_char_width(0xef), 3);
    assert_eq!(utf8_char_width(0xf0), 4);
    assert_eq!(utf8_char_width(0xf7), 4);
    assert_eq!(utf8_char_width(0xf8), 0);
    assert_eq!(utf8_char_width(0xff), 0);
}

#[test]
fn characters_are_written_in_utf8() {
    assert_eq!(encoded('a'), vec![0x61]);
    assert_eq!(encoded('\u{7f}'), vec![0x7f]);
    assert_eq!(encoded('\u{80}'), vec![0xc2, 0x80]);
    assert_eq!(encoded('é'), vec![0xc3, 0xa9]);
    assert_eq!(encoded('\u{7ff}'), vec![0xdf, 0xbf]);
    assert_eq!(encoded('\u{800}'), vec![0xe0, 0xa0, 0x80]);
    assert_eq!(encoded('€'), vec![0xe2, 0x82, 0xac]);
    assert_eq!(encoded('\u{ffff}'), vec![0xef, 0xbf, 0xbf]);
    assert_eq!(encoded('\u{10000}'), vec![0xf0, 0x90, 0x80, 0x80]);
    assert_eq!(encoded('😀'), vec![0xf0, 0x9f, 0x98, 0x80]);
    assert_eq!(encoded('\u{10ffff}'), vec![0xf4, 0x8f, 0xbf, 0xbf]);
    assert_eq!(encoded(REPLACEMENT), vec![0xef, 0xbf, 0xbd]);
    let mut out = vec![1, 2];
    encode_char('é', &mut out);
    assert_eq!(out, vec![1, 2, 0xc3, 0xa9]);
    for c in ['a', 'é', '€', '😀', '\u{d7ff}', '\u{e000}'] {
        assert_eq!(encoded(c), c.to_string().into_bytes());
    }
}

#[test]
fn well_formed_input_is_read_as_it_is() {
    assert_eq!(cat("aé€😀z".as_bytes()), "aé€😀z".as_bytes());
    assert_eq!(cat("\u{80}\u{7ff}\u{800}\u{ffff}\u{10000}\u{10ffff}".as_bytes()),
        "\u{80}\u{7ff}\u{800}\u{ffff}\u{10000}\u{10ffff}".as_bytes());
    assert_eq!(cat(b""), b"");
}

#[test]
fn a_lone_continuation_byte_reads_as_the_replacement() {
    assert_eq!(cat(&[0x80]), "\u{fffd}".as_bytes());
    assert_eq!(cat(&[b'a', 0xbf, b'b']), "a\u{fffd}b".as_bytes());
    assert_eq!(eval_to_string("``@i`|i", Input::Bytes(&[0x80])).unwrap(), "\u{fffd}");
    assert_eq!(
        eval_to_string("``@i```?\u{fffd}i.yi", Input::Bytes(&[0x9c])).unwrap(),
        "y"
    );
    let mut c = Ctx::new(vec![0x80, b'a'], Output::from(Vec::new()));
    let done = P::new(Cont::Final);
    let t = Task::App(Func::At, Func::S, done.clone()).run(&mut c).unwrap().unwrap();
    assert_eq!(t, Task::App(Func::S, Func::I, done.clone()));
    let t = Task::App(Func::Pipe, Func::S, done.clone()).run(&mut c).unwrap().unwrap();
    assert_eq!(t, Task::App(Func::Dot(REPLACEMENT), Func::S, done.clone()));
    let t = Task::App(Func::At, Func::S, done.clone()).run(&mut c).unwrap().unwrap();
    assert_eq!(t, Task::App(Func::S, Func::I, done.clone()));
    let t = Task::App(Func::Pipe, Func::S, done.clone()).run(&mut c).unwrap().unwrap();
    assert_eq!(t, Task::App(Func::Dot('a'), Func::S, done));
}

#[test]
fn a_byte_that_starts_nothing_reads_as_the_replacement() {
    assert_eq!(cat(&[0xf8, b'a']), "\u{fffd}a".as_bytes());
    assert_eq!(cat(&[0xff]), "\u{fffd}".as_bytes());
}

#[test]
fn a_sequence_cut_short_by_the_end_reads_as_the_replacement() {
    assert_eq!(cat(&[0xc3]), "\u{fffd}".as_bytes());
    assert_eq!(cat(&[b'a', 0xe2, 0x82]), "a\u{fffd}".as_bytes());
    assert_eq!(cat(&[0xf0, 0x9f, 0x98]), "\u{fffd}".as_bytes());
}

#[test]
fn a_malformed_sequence_is_consumed_whole() {
    assert_eq!(cat(&[0xc3, b'a', b'b']), "\u{fffd}b".as_bytes());
    assert_eq!(cat(&[0xe2, 0x82, b'a', b'b']), "\u{fffd}b".as_bytes());
    assert_eq!(cat(&[0xf0, 0x9f, 0x98, b'a', b'b']), "\u{fffd}b".as_bytes());
}

#[test]
fn overlong_and_surrogate_and_too_large_read_as_the_replacement() {
    assert_eq!(cat(&[0xc0, 0x80, b'a']), "\u{fffd}a".as_bytes());
    assert_eq!(cat(&[0xc1, 0xbf]), "\u{fffd}".as_bytes());
    assert_eq!(cat(&[0xe0, 0x9f, 0xbf]), "\u{fffd}".as_bytes());
    assert_eq!(cat(&[0xf0, 0x8f, 0xbf, 0xbf]), "\u{fffd}".as_bytes());
    assert_eq!(cat(&[0xed, 0xa0, 0x80]), "\u{fffd}".as_bytes());
    assert_eq!(cat(&[0xed, 0xbf, 0xbf]), "\u{fffd}".as_bytes());
    assert_eq!(cat(&[0xed, 0x9f, 0xbf]), "\u{d7ff}".as_bytes());
    assert_eq!(cat(&[0xee, 0x80, 0x80]), "\u{e000}".as_bytes());
    assert_eq!(cat(&[0xf4, 0x90, 0x80, 0x80]), "\u{fffd}".as_bytes());
    assert_eq!(cat(&[0xf5, 0x80, 0x80, 0x80]), "\u{fffd}".as_bytes());
    assert_eq!(cat(&[0xf7, 0xbf, 0xbf, 0xbf, b'a']), "\u{fffd}a".as_bytes());
}

#[test]
fn input_can_be_fed_and_output_taken_in_pieces() {
    let done = P::new(Cont::Final);
    let mut c = Ctx::new(Vec::new(), Output::from(Vec::new()));
    assert!(!c.has_input());
    c.feed(b"a");
    assert!(c.has_input());
    let t = Task::App(Func::At, Func::Pipe, done.clone()).run(&mut c).unwrap().unwrap();
    assert_eq!(t, Task::App(Func::Pipe, Func::I, done.clone()));
    assert!(!c.has_input());
    c.feed(&[0xc3]);
    c.feed(&[0xa9, b'z']);
    assert!(c.has_input());
    Task::App(Func::Dot('1'), Func::I, done.clone()).run(&mut c).unwrap();
    assert_eq!(c.take_output(), b"1");
    assert_eq!(c.take_output(), b"");
    let t = Task::App(Func::At, Func::S, done.clone()).run(&mut c).unwrap().unwrap();
    assert_eq!(t, Task::App(Func::S, Func::I, done.clone()));
    let t = Task::App(Func::Pipe, Func::S, done.clone()).run(&mut c).unwrap().unwrap();
    assert_eq!(t, Task::App(Func::Dot('é'), Func::S, done.clone()));
    assert!(c.has_input());
    Task::App(Func::Dot('2'), Func::I, done.clone()).run(&mut c).unwrap();
    Task::App(Func::R, Func::I, done).run(&mut c).unwrap();
    assert_eq!(c.take_output(), b"2\n");
    assert_eq!(c.into_output().into_bytes(), b"");
}

#[test]
fn output_goes_after_what_the_buffer_held() {
    let mut c = Ctx::new(Vec::new(), Output::Buffer(vec![b'>', b' ']));
    Task::App(Func::Dot('x'), Func::I, P::new(Cont::Final)).run(&mut c).unwrap();
    assert_eq!(c.into_output().into_bytes(), b"> x");
}

#[test]
fn inputs() {
    assert_eq!(Input::default(), Input::Str(""));
    assert_eq!(Input::from("abc"), Input::Str("abc"));
    assert_eq!(Input::from(&b"abc"[..]), Input::Bytes(b"abc"));
    assert_eq!(Input::Str("aé").to_bytes(), vec![b'a', 0xc3, 0xa9]);
    assert_eq!(Input::Bytes(&[0xff, 0]).to_bytes(), vec![0xff, 0]);
    assert_eq!(eval_to_string(CAT, Input::default()).unwrap(), "");
    assert_eq!(eval_to_string(CAT, Input::Str("héllo\n")).unwrap(), "héllo\n");
    assert_eq!(eval_to_vec(CAT, Input::Str("héllo\n")).unwrap(), "héllo\n".as_bytes());
}

#[test]
fn bytes_as_text() {
    assert_eq!(text_from("aé€😀".as_bytes().to_vec()), "aé€😀");
    assert_eq!(text_from(Vec::new()), "");
    assert_eq!(text_from(vec![b'a', 0xff, b'b']), "a\u{fffd}b");
    assert_eq!(text_from(vec![0xe2, 0x82]), "\u{fffd}");
}
