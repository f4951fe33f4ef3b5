use metrics_sidecar::text::{is_white_space_char, join, split_lines};

#[test]
fn white_space_is_what_std_calls_white_space() {
    let mut code: u32 = 0;
    while code <= 0x10FFFF {
        if let Some(c) = char::from_u32(code) {
            assert_eq!(is_white_space_char(c), c.is_whitespace(), "U+{:04X}", code);
        }
        code += 1;
    }
}

#[test]
fn some_white_space_by_hand() {
    assert!(is_white_space_char(' '));
    assert!(is_white_space_char('\t'));
    assert!(is_white_space_char('\n'));
    assert!(is_white_space_char('\u{a0}'));
    assert!(!is_white_space_char('#'));
    assert!(!is_white_space_char('a'));
    assert!(!is_white_space_char('\u{200b}'));
}

#[test]
fn text_without_newline_is_one_line() {
    assert_eq!(split_lines("up 1"), vec!["up 1".to_string()]);
}

#[test]
fn empty_text_is_one_empty_line() {
    assert_eq!(split_lines(""), vec![String::new()]);
}

#[test]
fn newline_at_the_end_gives_an_empty_last_line() {
    assert_eq!(
        split_lines("a 1\nb 2\n"),
        vec!["a 1".to_string(), "b 2".to_string(), String::new()]
    );
}

#[test]
fn empty_lines_between_are_kept() {
    assert_eq!(
        split_lines("\n\nx\n\ny"),
        vec![
            String::new(),
            String::new(),
            "x".to_string(),
            String::new(),
            "y".to_string()
        ]
    );
}

#[test]
fn carriage_return_stays_in_its_line() {
    assert_eq!(split_lines("a\r\nb"), vec!["a\r".to_string(), "b".to_string()]);
}

#[test]
fn splitting_agrees_with_std_and_joining_gives_the_text_back() {
    let texts = [
        "",
        "\n",
        "a",
        "a\n",
        "\na",
        "a\nb",
        "# HELP x\nx{a=\"1\"} 2\nx 3\n",
        "é\nü\n\n漢字",
    ];
    for text in texts {
        let lines = split_lines(text);
        let expected: Vec<String> = text.split('\n').map(|l| l.to_string()).collect();
        assert_eq!(lines, expected);
        assert_eq!(lines.join("\n"), text);
        assert!(lines.iter().all(|l| !l.contains('\n')));
    }
}

#[test]
fn lines_are_joined_by_single_newlines() {
    assert_eq!(join(&vec![]), "");
    assert_eq!(join(&vec!["a".to_string()]), "a");
    assert_eq!(join(&vec![String::new()]), "");
    assert_eq!(join(&vec!["a".to_string(), "b".to_string()]), "a\nb");
    assert_eq!(join(&vec!["a".to_string(), String::new(), "b".to_string(), String::new()]), "a\n\nb\n");
}

#[test]
fn joining_undoes_splitting() {
    for text in ["", "\n", "a", "a\nb\n", "\n\na\n\n"] {
        assert_eq!(join(&split_lines(text)), text);
    }
}
