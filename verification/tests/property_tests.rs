use bracket_markup::{parse_one_node, parse_sequential_nodes, Error, Node, Position, Sequence, Text};

fn text(s: &'static str, ended_explicitly: bool) -> Node {
    Node::Text(Text {
        content: String::from(s),
        ended_explicitly,
    })
}

fn seq(contents: Vec<Node>) -> Node {
    Node::Sequence(Sequence { contents })
}

#[test]
fn test_plain_text_is_one_node() {
    assert_eq!(
        parse_sequential_nodes("hello, world"),
        Ok(Sequence {
            contents: vec![text("hello, world", false)]
        })
    );
}

#[test]
fn test_plain_text_with_newline_is_one_node() {
    assert_eq!(
        parse_sequential_nodes("one\ntwo"),
        Ok(Sequence {
            contents: vec![text("one\ntwo", false)]
        })
    );
}

#[test]
fn test_empty_brackets() {
    assert_eq!(
        parse_sequential_nodes("[]"),
        Ok(Sequence {
            contents: vec![seq(vec![])]
        })
    );
}

#[test]
fn test_nested_empty_brackets() {
    assert_eq!(
        parse_sequential_nodes("[[[]]]"),
        Ok(Sequence {
            contents: vec![seq(vec![seq(vec![seq(vec![])])])]
        })
    );
}

#[test]
fn test_each_control_character_escapes_to_itself() {
    for (input, unescaped) in [
        (r#"[\\]"#, "\\"),
        (r#"[\|]"#, "|"),
        (r#"[\[]"#, "["),
        (r#"[\]]"#, "]"),
    ] {
        assert_eq!(
            parse_sequential_nodes(input),
            Ok(Sequence {
                contents: vec![seq(vec![text(unescaped, false)])]
            })
        );
    }
}

#[test]
fn test_unclosed_bracket_short_input() {
    assert_eq!(
        parse_sequential_nodes(r#"a[b"#),
        Err(Error::UnclosedBracket {
            pos: Position { row: 1, col: 2 }
        })
    );
}

#[test]
fn test_escape_at_the_end_of_input_after_a_new_line() {
    assert_eq!(
        parse_sequential_nodes("\n\\"),
        Err(Error::EscapeAtTheEndOfInput {
            input_end: Position { row: 2, col: 2 }
        })
    );
}

#[test]
fn test_unexpected_closing_bracket_after_a_new_line() {
    assert_eq!(
        parse_sequential_nodes("ab\n]"),
        Err(Error::UnexpectedClosingBracket {
            pos: Position { row: 2, col: 1 }
        })
    );
}

#[test]
fn test_end_to_end_example() {
    assert_eq!(
        parse_sequential_nodes("text[a|b[c]|[]d]"),
        Ok(Sequence {
            contents: vec![
                text("text", false),
                seq(vec![
                    text("a", true),
                    text("b", false),
                    seq(vec![text("c", false)]),
                    text("", true),
                    seq(vec![]),
                    text("d", false),
                ])
            ]
        })
    );
}

#[test]
fn test_parsing_one_node_consumes_only_the_first_node() {
    assert_eq!(
        parse_one_node("[a]rest|after"),
        Ok(Some((
            seq(vec![text("a", false)]),
            "rest|after",
            Position { row: 1, col: 4 }
        )))
    );
}

#[test]
fn test_parsing_one_node_empty_brackets() {
    assert_eq!(
        parse_one_node("[]"),
        Ok(Some((seq(vec![]), "", Position { row: 1, col: 3 })))
    );
}

#[test]
fn test_parsing_one_node_fatal_escape() {
    assert_eq!(
        parse_one_node("\\"),
        Err(Error::EscapeAtTheEndOfInput {
            input_end: Position { row: 1, col: 2 }
        })
    );
}

#[test]
fn test_deeply_nested_brackets() {
    let depth: usize = 64;
    let mut input = String::new();
    for _ in 0..depth {
        input.push('[');
    }
    for _ in 0..depth {
        input.push(']');
    }
    let mut expected = seq(vec![]);
    for _ in 0..depth - 1 {
        expected = seq(vec![expected]);
    }
    assert_eq!(
        parse_sequential_nodes(&input),
        Ok(Sequence {
            contents: vec![expected]
        })
    );
}
