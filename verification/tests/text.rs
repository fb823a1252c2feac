use hash_quest::text::{console_text, digit_to_char, group_formatted, push_decimal, MAX_CONSOLE_LINES};

#[test]
fn decimal_rendering() {
    let mut s = String::from("n=");
    push_decimal(&mut s, 0);
    assert_eq!(s, "n=0");
    let mut s = String::new();
    push_decimal(&mut s, u64::MAX);
    assert_eq!(s, u64::MAX.to_string());
}

#[test]
fn thousands_grouping() {
    assert_eq!(group_formatted("1234567.89"), "1,234,567.89");
    assert_eq!(group_formatted("1234.00"), "1,234");
    assert_eq!(group_formatted("123"), "123");
    assert_eq!(group_formatted("1000"), "1,000");
    assert_eq!(group_formatted("-123.50"), "-,123.50");
    assert_eq!(group_formatted("-1234"), "-1,234");
    assert_eq!(group_formatted("0.12345"), "0.12345");
    assert_eq!(group_formatted("12.3.4"), "12.3");
    assert_eq!(group_formatted(""), "");
}

#[test]
fn digits_render_as_characters() {
    assert_eq!(digit_to_char(0), '0');
    assert_eq!(digit_to_char(7), '7');
    assert_eq!(digit_to_char(9), '9');
}

#[test]
fn console_appends_message_on_its_own_line() {
    assert_eq!(console_text("", "hello"), "hello");
    assert_eq!(console_text("first", "second"), "first\nsecond");
    assert_eq!(console_text("a\nb", "c"), "a\nb\nc");
}

#[test]
fn console_keeps_last_lines() {
    let history: Vec<String> = (0..1100).map(|i| format!("l{}", i)).collect();
    let out = console_text(&history.join("\n"), "msg");
    let lines: Vec<&str> = out.split('\n').collect();
    assert_eq!(lines.len(), MAX_CONSOLE_LINES + 1);
    assert_eq!(lines[0], "l76");
    assert_eq!(lines[MAX_CONSOLE_LINES - 1], "l1099");
    assert_eq!(lines[MAX_CONSOLE_LINES], "msg");

    let short: Vec<String> = (0..1024).map(|i| format!("l{}", i)).collect();
    let out = console_text(&short.join("\n"), "m");
    let lines: Vec<&str> = out.split('\n').collect();
    assert_eq!(lines.len(), MAX_CONSOLE_LINES + 1);
    assert_eq!(lines[0], "l0");
}
