use byebyemenu::config::parse_command_or_error;
use byebyemenu::shell::join_command_line;

#[test]
fn test_join_quotes_words() {
    let words = vec!["a".to_string(), "b c".to_string()];
    assert_eq!(join_command_line(&words), "a 'b c'");
}

#[test]
fn test_join_then_tokenize_round_trips() {
    let cases: Vec<Vec<&str>> = vec![
        vec!["echo", "hello", "world"],
        vec!["notify-send", "a message with spaces"],
        vec!["sh", "-c", "echo 'quoted' \"twice\""],
        vec!["printf", "%s\n", "line"],
        vec!["empty", ""],
    ];
    for case in cases {
        let words: Vec<String> = case.iter().map(|s| s.to_string()).collect();
        let line = join_command_line(&words);
        let parsed = parse_command_or_error(Some(line), None, 1).unwrap();
        assert_eq!(parsed, Some(words));
    }
}
