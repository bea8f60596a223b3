use keyset::text::{Text, TextParser};

#[test]
fn text_display() {
    let text = Text(vec!["hello".to_string(), "world".to_string()]);

    assert_eq!(text.to_string(), "hello\\nworld");
}

#[test]
fn text_parse_from() {
    let result = Text::parse_from("hello<br>world");
    assert_eq!(result.0, vec!["hello", "world"]);
}

#[test]
fn text_lines() {
    let text = Text::parse_from("hello<br>world");
    let mut iter = text.lines().into_iter();

    assert_eq!(iter.next(), Some("hello"));
    assert_eq!(iter.next(), Some("world"));
    assert_eq!(iter.next(), None);
}

#[test]
fn text_parser_new() {
    let text_parser = TextParser::new("hello world");
    assert_eq!(text_parser.remaining_input(), "hello world");
    assert!(text_parser.result.is_empty());
    assert!(text_parser.line.is_empty());
}

#[test]
fn text_parser_parse() {
    let input = ["hello world", "hello<br>world", "hello\nworld", "hello\n"];
    let expected = [
        &["hello world"][..],
        &["hello", "world"][..],
        &["hello", "world"][..],
        &["hello"][..],
    ];

    assert!(input.len() == expected.len());
    for (inp, exp) in input.iter().zip(expected) {
        let parser = TextParser::new(inp);
        let result = parser.parse();
        assert_eq!(result.0, exp);
    }
}

#[test]
fn text_parser_parse_tag() {
    let input = [
        "br>foo",
        "br attr=val>foo",
        "br aiugho;\0n'oarenb\\>foo",
        "bread>foo",
        "foo>bar",
        "foo bar>baz",
        "foo",
        "foo bar",
    ];
    // (result, line, remaining input)
    let expected: [(Vec<String>, &str, &str); 8] = [
        (vec![String::new()], "", "foo"),
        (vec![String::new()], "", "foo"),
        (vec![String::new()], "", "foo"),
        (vec![], "<bread>", "foo"),
        (vec![], "<foo>", "bar"),
        (vec![], "<foo bar>", "baz"),
        (vec![], "<foo", ""),
        (vec![], "<foo", " bar"),
    ];

    assert!(input.len() == expected.len());
    for (inp, exp) in input.iter().zip(expected) {
        let mut parser = TextParser::new(inp);
        parser.parse_tag();

        assert_eq!(parser.result, exp.0);
        assert_eq!(parser.line, exp.1);
        assert_eq!(parser.remaining_input(), exp.2);
    }
}

#[test]
fn text_newlines_and_tags() {
    // Empty lines between breaks are kept, a trailing empty line is not
    let text = Text::parse_from("a\n\nb<br>");
    assert_eq!(text.0, vec!["a", "", "b"]);

    // Unsupported tags pass through, including a newline inside the tag
    let text = Text::parse_from("<b>bold</b><i\n>");
    assert_eq!(text.0, vec!["<b>bold</b><i\n>"]);

    // A `<` that starts no tag is kept as text
    let text = Text::parse_from("1 < 2");
    assert_eq!(text.0, vec!["1 < 2"]);

    // Non-ASCII text ends a tag name, and what follows the name up to `>` is ignored
    let text = Text::parse_from("¡<brä>¹");
    assert_eq!(text.0, vec!["¡", "¹"]);

    let text = Text::parse_from("");
    assert!(text.0.is_empty());
}

#[test]
fn text_join_roundtrip() {
    let lines = vec!["Caps".to_string(), String::new(), "Lock".to_string()];
    let joined = lines.join("<br>");
    assert_eq!(Text::parse_from(&joined).0, lines);
    let joined = lines.join("\n");
    assert_eq!(Text::parse_from(&joined).0, lines);
}
