use strmatch::ast::{TailMode, Token};
use strmatch::lower::{MatchSpec, Matcher};
use strmatch::matching::{match_bytes, Bindings};
use strmatch::parse::ParseError;
use strmatch::strmatch;
use strmatch::suffix::{process_suffix, SuffixError};

fn text(s: &str) -> Token {
    Token::TextLit { bytes: s.as_bytes().to_vec(), suffix: Vec::new() }
}

fn text_x(s: &str, suffix: &str) -> Token {
    Token::TextLit { bytes: s.as_bytes().to_vec(), suffix: suffix.as_bytes().to_vec() }
}

fn byte_str_x(s: &[u8], suffix: &str) -> Token {
    Token::ByteStrLit { bytes: s.to_vec(), suffix: suffix.as_bytes().to_vec() }
}

fn ident(s: &str) -> Token {
    Token::Name { name: s.as_bytes().to_vec() }
}

fn compile(tokens: Vec<Token>, mode: TailMode) -> MatchSpec {
    strmatch(&tokens, mode).unwrap()
}

fn match_str(m: &MatchSpec, s: &str) -> Option<Bindings> {
    match_bytes(m, &s.as_bytes().to_vec())
}

#[test]
fn syntax() {
    let m1 = compile(Vec::new(), TailMode::Optional);
    let m2 = compile(Vec::new(), TailMode::Optional);
    let empty_input = "".as_bytes().to_vec();
    assert!(match_bytes(&m1, &empty_input).is_some() || match_bytes(&m2, &empty_input).is_some());
}

#[test]
fn empty() {
    let m = compile(Vec::new(), TailMode::Optional);
    assert!(match_str(&m, "").is_some());
}

#[test]
fn byte_or_string_literal() {
    let from_text = compile(vec![text("hello")], TailMode::Optional);
    assert!(match_str(&from_text, "hello").is_some());
    let from_bytes = compile(vec![byte_str_x(b"hello", "")], TailMode::Optional);
    assert!(match_str(&from_bytes, "hello").is_some());
}

#[test]
fn empty_suffix_means_one_repetition() {
    assert_eq!(process_suffix(&Vec::new()), Ok(1));
}

#[test]
fn suffix_count_equals_parsed_integer() {
    assert_eq!(process_suffix(&b"x2".to_vec()), Ok(2));
    assert_eq!(process_suffix(&b"x1".to_vec()), Ok(1));
    assert_eq!(process_suffix(&b"x10".to_vec()), Ok(10));
    assert_eq!(process_suffix(&b"x037".to_vec()), Ok(37));
}

#[test]
fn suffix_not_starting_with_x_rejected() {
    assert_eq!(process_suffix(&b"y2".to_vec()), Err(SuffixError::NotX));
    assert_eq!(process_suffix(&b"2x".to_vec()), Err(SuffixError::NotX));
}

#[test]
fn suffix_bad_count_rejected() {
    assert_eq!(
        process_suffix(&b"x".to_vec()),
        Err(SuffixError::BadCount { text: Vec::new() })
    );
    assert_eq!(
        process_suffix(&b"xa".to_vec()),
        Err(SuffixError::BadCount { text: b"a".to_vec() })
    );
    assert_eq!(
        process_suffix(&b"x2a".to_vec()),
        Err(SuffixError::BadCount { text: b"2a".to_vec() })
    );
    assert_eq!(
        process_suffix(&b"x99999999999999999999999999".to_vec()),
        Err(SuffixError::BadCount { text: b"99999999999999999999999999".to_vec() })
    );
}

#[test]
fn zero_repetitions_rejected() {
    assert_eq!(
        process_suffix(&b"x0".to_vec()),
        Err(SuffixError::BadCount { text: b"0".to_vec() })
    );
    let r = strmatch(&vec![byte_str_x(b"hi", "x0")], TailMode::Optional);
    assert_eq!(
        r,
        Err(ParseError::Suffix { at: 0, err: SuffixError::BadCount { text: b"0".to_vec() } })
    );
}

#[test]
fn suffix_error_is_anchored_to_its_literal() {
    let r = strmatch(
        &vec![text("a"), byte_str_x(b"hi", "q2")],
        TailMode::Optional,
    );
    assert_eq!(r, Err(ParseError::Suffix { at: 1, err: SuffixError::NotX }));
}

#[test]
fn repetition_expands_in_order() {
    let m = compile(vec![text_x("ab", "x3")], TailMode::Optional);
    let expected: Vec<Matcher> = vec![
        Matcher::Fixed { value: b'a' },
        Matcher::Fixed { value: b'b' },
        Matcher::Fixed { value: b'a' },
        Matcher::Fixed { value: b'b' },
        Matcher::Fixed { value: b'a' },
        Matcher::Fixed { value: b'b' },
    ];
    assert_eq!(m.elems, expected);
    assert!(m.tail.is_none());
}

#[test]
fn byte_literal_repeats() {
    let m = compile(
        vec![Token::ByteLit { value: b'b', suffix: b"x2".to_vec() }],
        TailMode::Optional,
    );
    assert_eq!(
        m.elems,
        vec![Matcher::Fixed { value: b'b' }, Matcher::Fixed { value: b'b' }]
    );
    assert!(match_str(&m, "bb").is_some());
    assert!(match_str(&m, "b").is_none());
}

#[test]
fn fixed_pattern_matches_exact_bytes() {
    let tokens = vec![
        text("one"),
        Token::Underscore,
        text_x("two", "x2"),
        Token::Underscore,
        text_x("three", "x3"),
    ];
    let m = compile(tokens, TailMode::Optional);
    assert_eq!(m.elems.len(), 26);
    assert!(m.tail.is_none());
    let b = match_str(&m, "one twotwo threethreethree").unwrap();
    assert!(b.singles.is_empty());
    assert!(b.tail.is_none());
    assert!(match_str(&m, "one twotwo threethreethre").is_none());
    assert!(match_str(&m, "one twotwo threethreethreeX").is_none());
    assert!(match_str(&m, "oneXtwotwoXthreethreethree").is_some());
}

#[test]
fn named_tail_binds_remainder() {
    let tokens = vec![
        text("one"),
        Token::Underscore,
        Token::OpenBracket,
        ident("hellooo"),
        Token::CloseBracket,
    ];
    let m = compile(tokens, TailMode::Optional);
    let b = match_str(&m, "one twotwo threethreethree").unwrap();
    let t = b.tail.unwrap();
    assert_eq!(t.name, b"hellooo".to_vec());
    assert_eq!(t.bytes, b"twotwo threethreethree".to_vec());
}

#[test]
fn named_tail_may_bind_empty() {
    let tokens = vec![text("one"), Token::OpenBracket, ident("rest"), Token::CloseBracket];
    let m = compile(tokens, TailMode::Optional);
    let b = match_str(&m, "one").unwrap();
    assert_eq!(b.tail.unwrap().bytes, Vec::<u8>::new());
}

#[test]
fn discarded_tail_consumes_remainder() {
    let tokens = vec![text("one"), Token::OpenBracket, Token::Underscore, Token::CloseBracket];
    let m = compile(tokens, TailMode::Optional);
    let b = match_str(&m, "one and anything else").unwrap();
    assert!(b.singles.is_empty());
    assert!(b.tail.is_none());
    assert!(match_str(&m, "on").is_none());
}

#[test]
fn named_element_binds_single_byte() {
    let tokens = vec![
        text_x("hello ", "x2"),
        text("strmatch"),
        ident("rest"),
    ];
    let m = compile(tokens, TailMode::Optional);
    let b = match_str(&m, "hello hello strmatch!").unwrap();
    assert_eq!(b.singles.len(), 1);
    assert_eq!(b.singles[0].name, b"rest".to_vec());
    assert_eq!(b.singles[0].value, b'!');
    assert!(b.tail.is_none());
}

#[test]
fn singles_and_tail_combine() {
    let tokens = vec![
        text("one"),
        Token::Underscore,
        text_x("two", "x2"),
        ident("space"),
        text_x("three", "x2"),
        Token::OpenBracket,
        ident("rest"),
        Token::CloseBracket,
    ];
    let m = compile(tokens, TailMode::Optional);
    let b = match_str(&m, "one twotwo threethreethree").unwrap();
    assert_eq!(b.singles.len(), 1);
    assert_eq!(b.singles[0].name, b"space".to_vec());
    assert_eq!(b.singles[0].value, b' ');
    let t = b.tail.unwrap();
    assert_eq!(t.name, b"rest".to_vec());
    assert_eq!(t.bytes, b"three".to_vec());
}

#[test]
fn empty_pattern_matches_only_empty() {
    let m = compile(Vec::new(), TailMode::Optional);
    assert!(m.elems.is_empty());
    assert!(m.tail.is_none());
    assert!(match_str(&m, "").is_some());
    assert!(match_str(&m, "x").is_none());
    let mandatory = compile(Vec::new(), TailMode::Mandatory);
    assert!(match_str(&mandatory, "").is_some());
    assert!(match_str(&mandatory, "x").is_none());
}

#[test]
fn colon_form_binds_empty_rest() {
    let tokens = vec![
        text("one"),
        Token::Colon,
        Token::Underscore,
        Token::Colon,
        text_x("two", "x2"),
        Token::Colon,
        ident("rest"),
    ];
    let m = compile(tokens, TailMode::Mandatory);
    let b = match_str(&m, "one twotwo").unwrap();
    let t = b.tail.unwrap();
    assert_eq!(t.name, b"rest".to_vec());
    assert_eq!(t.bytes, Vec::<u8>::new());
    let longer = match_str(&m, "one twotwo and more").unwrap();
    assert_eq!(longer.tail.unwrap().bytes, b" and more".to_vec());
}

#[test]
fn colon_form_bare_identifier_is_tail() {
    let m = compile(vec![ident("rest")], TailMode::Mandatory);
    assert!(m.elems.is_empty());
    let b = match_str(&m, "anything").unwrap();
    assert_eq!(b.tail.unwrap().bytes, b"anything".to_vec());
}

#[test]
fn grammar_error_reports_position() {
    let r = strmatch(&vec![Token::Colon], TailMode::Optional);
    assert_eq!(r, Err(ParseError::Grammar { at: 0 }));
    let r2 = strmatch(
        &vec![text("a"), text("b"), Token::Colon, ident("rest")],
        TailMode::Mandatory,
    );
    assert_eq!(r2, Err(ParseError::Grammar { at: 1 }));
}

#[test]
fn trailing_content_errors() {
    let after_bracket = strmatch(
        &vec![
            Token::OpenBracket,
            ident("r"),
            Token::CloseBracket,
            text("x"),
        ],
        TailMode::Optional,
    );
    assert_eq!(after_bracket, Err(ParseError::Trailing { at: 3 }));
    let bad_group = strmatch(&vec![Token::OpenBracket, Token::Colon], TailMode::Optional);
    assert_eq!(bad_group, Err(ParseError::Trailing { at: 1 }));
    let unclosed = strmatch(&vec![Token::OpenBracket, ident("r")], TailMode::Optional);
    assert_eq!(unclosed, Err(ParseError::Trailing { at: 2 }));
}

#[test]
fn missing_remainder_errors() {
    let after_colon = strmatch(&vec![text("a"), Token::Colon], TailMode::Mandatory);
    assert_eq!(after_colon, Err(ParseError::MissingRemainder { at: 2 }));
    let no_tail = strmatch(&vec![text("a")], TailMode::Mandatory);
    assert_eq!(no_tail, Err(ParseError::MissingRemainder { at: 1 }));
}

#[test]
fn recompiling_gives_identical_output() {
    let tokens = vec![
        text("one"),
        Token::Underscore,
        text_x("two", "x2"),
        Token::OpenBracket,
        ident("rest"),
        Token::CloseBracket,
    ];
    let r1 = strmatch(&tokens, TailMode::Optional);
    let r2 = strmatch(&tokens.clone(), TailMode::Optional);
    assert_eq!(r1, r2);
}

#[test]
fn char_literal_reduces_to_byte() {
    let m = compile(
        vec![Token::CharLit { value: b'x', suffix: Vec::new() }],
        TailMode::Optional,
    );
    assert_eq!(m.elems, vec![Matcher::Fixed { value: b'x' }]);
    assert!(match_str(&m, "x").is_some());
    assert!(match_str(&m, "y").is_none());
}

#[test]
fn wildcard_matches_any_single_element() {
    let m = compile(vec![Token::Underscore], TailMode::Optional);
    assert!(match_str(&m, "q").is_some());
    assert!(match_str(&m, "").is_none());
    assert!(match_str(&m, "qq").is_none());
}
