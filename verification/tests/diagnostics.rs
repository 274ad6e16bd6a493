use ludtwig::error::{
    get_line_and_column_of_subslice, MismatchKind, TwigParseError, TwigParsingErrorInformation,
};

fn b(s: &str) -> Vec<u8> {
    s.as_bytes().to_vec()
}

#[test]
fn test_resolution_third_line() {
    let input = "abc\ndef\nghi";
    // residual points at "ghi"
    let (line, column, text) = get_line_and_column_of_subslice(input.as_bytes(), 8);
    assert_eq!(line, 3);
    assert_eq!(column, 1);
    assert_eq!(text, b("ghi"));
}

#[test]
fn test_resolution_crlf_counts_once() {
    let input = "a\r\nb\r\nc";
    // residual points at "c": line 3, not line 5
    let (line, column, text) = get_line_and_column_of_subslice(input.as_bytes(), 6);
    assert_eq!(line, 3);
    assert_eq!(column, 1);
    assert_eq!(text, b("c"));
}

#[test]
fn test_resolution_without_trailing_newline() {
    let input = "x\ny";
    // residual points at "y" on the unterminated final line
    let (line, column, text) = get_line_and_column_of_subslice(input.as_bytes(), 2);
    assert_eq!(line, 2);
    assert_eq!(column, 1);
    assert_eq!(text, b("y"));
}

#[test]
fn test_resolution_mid_line_column() {
    let input = "abc\ndef\nghi";
    let (line, column, text) = get_line_and_column_of_subslice(input.as_bytes(), 5);
    assert_eq!(line, 2);
    assert_eq!(column, 2);
    assert_eq!(text, b("def"));
}

#[test]
fn test_resolution_lone_carriage_return_breaks_line() {
    let input = "a\rb";
    let (line, column, text) = get_line_and_column_of_subslice(input.as_bytes(), 2);
    assert_eq!(line, 2);
    assert_eq!(column, 1);
    assert_eq!(text, b("b"));
}

#[test]
fn test_context_overwrite_keeps_last() {
    let base = TwigParsingErrorInformation::from_error_kind(4, MismatchKind::Tag);
    let with_a = TwigParsingErrorInformation::add_context(4, b("A"), base);
    assert_eq!(with_a.context, Some(b("A")));
    let with_b = TwigParsingErrorInformation::add_context(4, b("B"), with_a);
    assert_eq!(with_b.context, Some(b("B")));
    assert_eq!(with_b.leftover, 4);
    assert_eq!(with_b.kind, MismatchKind::Tag);
}

#[test]
fn test_dynamic_context_overwrites_too() {
    let base = TwigParsingErrorInformation::from_char(7, 'x');
    assert_eq!(base.kind, MismatchKind::Not);
    assert_eq!(base.context, None);
    let annotated = TwigParsingErrorInformation::add_dynamic_context(7, b("near token y"), base);
    assert_eq!(annotated.context, Some(b("near token y")));
}

#[test]
fn test_append_keeps_most_recent_failure() {
    let recent = TwigParsingErrorInformation::from_error_kind(9, MismatchKind::Alt);
    let kept = TwigParsingErrorInformation::append(2, MismatchKind::Tag, recent);
    assert_eq!(kept.leftover, 9);
    assert_eq!(kept.kind, MismatchKind::Alt);
}

#[test]
fn test_pretty_error_without_context_names_kind() {
    let info = TwigParsingErrorInformation::from_error_kind(8, MismatchKind::Tag);
    let err = TwigParseError::ParsingError(info);
    let out = err.pretty_helpful_error_string("abc\ndef\nghi".as_bytes());
    assert_eq!(
        String::from_utf8(out).unwrap(),
        "Parsing goes wrong in line 3 and column 1 :\nghi\n^\n|\nTag"
    );
}

#[test]
fn test_pretty_error_aligns_caret_under_column() {
    let info = TwigParsingErrorInformation {
        leftover: 10,
        context: Some(b("while parsing a block")),
        kind: MismatchKind::Char,
    };
    let err = TwigParseError::ParsingFailure(info);
    let out = err.pretty_helpful_error_string("abc\ndef\nghi".as_bytes());
    assert_eq!(
        String::from_utf8(out).unwrap(),
        "Parsing goes wrong in line 3 and column 3 :\nghi\n  ^\n  |\nwhile parsing a block"
    );
}

#[test]
fn test_describe_recoverable_error() {
    let info = TwigParsingErrorInformation::from_error_kind(1234, MismatchKind::Eof);
    let err = TwigParseError::ParsingError(info);
    assert_eq!(
        String::from_utf8(err.describe()).unwrap(),
        "parsing error because: (1234, Eof, None)"
    );
}

#[test]
fn test_describe_unrecoverable_failure_with_context() {
    let base = TwigParsingErrorInformation::from_error_kind(0, MismatchKind::Not);
    let info = TwigParsingErrorInformation::add_context(0, b("in tag"), base);
    let err = TwigParseError::ParsingFailure(info);
    assert_eq!(
        String::from_utf8(err.describe()).unwrap(),
        "Unrecoverable parsing failure because: (0, Not, in tag)"
    );
}
