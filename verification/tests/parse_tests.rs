use bracket_markup::{parse_one_node, parse_sequential_nodes, Error, Node, Position, Sequence, Text};

fn text(s: &'static str, ended_explicitly: bool) -> Node {
    Node::Text(Text {
        content: String::from(s),
        ended_explicitly,
    })
}

fn seq(contents: Vec<Node>) -> Node {
    Node::Sequence(Sequence { contents })
}

#[test]
fn test_parsing() {
    assert_eq!(
        parse_sequential_nodes(
            r#"text[first sequence item|second sequence item[subsequence]|third sequence item[]with an empty in-between sequence]"#
        ),
        Ok(Sequence {
            contents: vec![
                text("text", false),
                seq(vec![
                    text("first sequence item", true),
                    text("second sequence item", false),
                    seq(vec![text("subsequence", false)]),
                    text("", true),
                    text("third sequence item", false),
                    seq(vec![]),
                    text("with an empty in-between sequence", false)
                ])
            ]
        })
    );
}

#[test]
fn test_escaping() {
    assert_eq!(
        parse_sequential_nodes(
            r#"[some vertical bars: \|\|\|][some brackets: \]\[\[\]][some backslashes: \\ \\ \\]"#
        ),
        Ok(Sequence {
            contents: vec![
                seq(vec![text(r#"some vertical bars: |||"#, false)]),
                seq(vec![text(r#"some brackets: ][[]"#, false)]),
                seq(vec![text(r#"some backslashes: \ \ \"#, false)]),
            ]
        })
    );
}

#[test]
fn test_parsing_two_text_nodes() {
    assert_eq!(
        parse_sequential_nodes(r#"first text node|second text node"#),
        Ok(Sequence {
            contents: vec![
                text("first text node", true),
                text("second text node", false)
            ]
        })
    );
}

#[test]
fn test_parsing_complicated_input() {
    assert_eq!(
        parse_sequential_nodes(r#"[|a[]]|[a||b]"#),
        Ok(Sequence {
            contents: vec![
                seq(vec![text("", true), text("a", false), seq(vec![])]),
                text("", true),
                seq(vec![text("a", true), text("", true), text("b", false)])
            ]
        })
    );
}

#[test]
fn test_parsing_empty_input() {
    assert_eq!(
        parse_sequential_nodes(r#""#),
        Ok(Sequence { contents: vec![] })
    );
}

#[test]
fn test_unexpected_closing_bracket_detection() {
    assert_eq!(
        parse_sequential_nodes(r#"abc]"#),
        Err(Error::UnexpectedClosingBracket {
            pos: Position { col: 4, row: 1 }
        })
    );
}

#[test]
fn test_immediate_unexpected_closing_bracket_detection() {
    assert_eq!(
        parse_sequential_nodes(r#"]"#),
        Err(Error::UnexpectedClosingBracket {
            pos: Position { col: 1, row: 1 }
        })
    );
}

#[test]
fn test_parsing_a_single_node_with_incorrect_syntax_after_the_node() {
    assert_eq!(
        parse_one_node(r#"a["#),
        Ok(Some((text("a", false), "[", Position { row: 1, col: 2 })))
    );
}

#[test]
fn test_parsing_empty_input_as_one_node() {
    assert_eq!(parse_one_node(r#""#), Ok(None));
}

#[test]
fn test_immediate_escape_at_the_end_of_input_detection() {
    assert_eq!(
        parse_sequential_nodes(r#"\"#),
        Err(Error::EscapeAtTheEndOfInput {
            input_end: Position { col: 2, row: 1 }
        })
    );
}

#[test]
fn test_escape_at_the_end_of_input_detection() {
    assert_eq!(
        parse_sequential_nodes(r#"abc\"#),
        Err(Error::EscapeAtTheEndOfInput {
            input_end: Position { col: 5, row: 1 }
        })
    );
}

#[test]
fn test_parsing_only_a_text_terminator() {
    assert_eq!(
        parse_sequential_nodes(r#"|"#),
        Ok(Sequence {
            contents: vec![text("", true)]
        })
    );
}

#[test]
fn test_unknown_character_escape_detection() {
    assert_eq!(
        parse_sequential_nodes(r#"a\b"#),
        Err(Error::UnknownCharacterEscaped {
            character_position: Position { col: 3, row: 1 }
        })
    );
}

#[test]
fn test_immediate_unclosed_bracket_detection_with_one_node_parsing() {
    assert_eq!(
        parse_one_node(r#"[abcd"#),
        Err(Error::UnclosedBracket {
            pos: Position { col: 1, row: 1 }
        })
    );
}

#[test]
fn test_unclosed_bracket_detection_after_a_new_line() {
    assert_eq!(
        parse_sequential_nodes("\n[abcd"),
        Err(Error::UnclosedBracket {
            pos: Position { col: 1, row: 2 }
        })
    );
}

#[test]
fn test_unknown_character_escape_detection_after_a_new_line() {
    assert_eq!(
        parse_sequential_nodes("\n\\a"),
        Err(Error::UnknownCharacterEscaped {
            character_position: Position { col: 2, row: 2 }
        })
    );
}

#[test]
fn test_unclosed_bracket_detection() {
    assert_eq!(
        parse_sequential_nodes(r#"a[bcd"#),
        Err(Error::UnclosedBracket {
            pos: Position { col: 2, row: 1 }
        })
    );
}
