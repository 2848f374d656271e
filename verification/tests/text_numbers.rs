use politiktok::clipboard::{escape_template, json_copy_command, template_copy_command};
use politiktok::numbers::{format_i64, format_u64, parse_i32};
use politiktok::opposition::parse_briefing_sections;
use politiktok::text::{
    comma_items, join_texts, line_items, lines, non_empty, split_char, text_eq, trim, trimmed,
    truncate_text,
};

#[test]
fn trim_strips_unicode_whitespace_on_both_ends() {
    assert_eq!(trim("  \t hello world \n"), "hello world");
    assert_eq!(trim("\u{3000}x\u{a0}"), "x");
    assert_eq!(trim("   "), "");
    assert_eq!(trim(""), "");
    assert_eq!(trim("a b"), "a b");
}

#[test]
fn trim_is_idempotent_on_examples() {
    for s in ["  a  ", "\n\tb c\r\n", "", " ", "xyz"] {
        let once = trim(s);
        assert_eq!(trim(once), once);
        assert_eq!(once, s.trim());
    }
}

#[test]
fn trimmed_gives_owned_trimmed_text() {
    assert_eq!(trimmed("  Jane Smith  "), "Jane Smith".to_string());
}

#[test]
fn text_eq_compares_exactly() {
    assert!(text_eq("abc", "abc"));
    assert!(!text_eq("abc", "abd"));
    assert!(!text_eq("abc", "ab"));
    assert!(text_eq("", ""));
}

#[test]
fn lines_follow_std_lines() {
    for s in ["a\nb\r\nc", "a\n", "", "\n\n", "one", "x\r\n\r\ny\n"] {
        let ours: Vec<&str> = lines(s);
        let std_lines: Vec<&str> = s.lines().collect();
        assert_eq!(ours, std_lines);
    }
}

#[test]
fn split_char_follows_std_split() {
    for s in ["a,b,,c", "", ",", "abc", ",x,"] {
        let ours: Vec<&str> = split_char(s, ',');
        let std_split: Vec<&str> = s.split(',').collect();
        assert_eq!(ours, std_split);
    }
}

#[test]
fn line_items_keep_trimmed_non_blank_lines() {
    assert_eq!(
        line_items("  Economy \n\n Housing\r\n   \nSchools"),
        vec!["Economy".to_string(), "Housing".to_string(), "Schools".to_string()]
    );
    assert!(line_items("  \n \n").is_empty());
}

#[test]
fn comma_items_keep_trimmed_non_blank_entries() {
    assert_eq!(
        comma_items(" major donor, ,veteran ,, local"),
        vec!["major donor".to_string(), "veteran".to_string(), "local".to_string()]
    );
    assert!(comma_items("").is_empty());
}

#[test]
fn non_empty_passes_on_text_only() {
    assert_eq!(non_empty(""), None);
    assert_eq!(non_empty("climate"), Some("climate".to_string()));
    assert_eq!(non_empty(" "), Some(" ".to_string()));
}

#[test]
fn join_texts_puts_separator_between_items() {
    let v = vec!["a".to_string(), "b".to_string(), "c".to_string()];
    assert_eq!(join_texts(&v, ", "), "a, b, c");
    assert_eq!(join_texts(&vec!["x".to_string()], ", "), "x");
    assert_eq!(join_texts(&Vec::new(), ", "), "");
}

#[test]
fn truncate_text_cuts_at_byte_limit() {
    assert_eq!(truncate_text("short", 120), "short");
    let long = "a".repeat(130);
    let cut = truncate_text(&long, 120);
    assert_eq!(cut, format!("{}...", "a".repeat(120)));
    assert_eq!(truncate_text("abcdef", 6), "abcdef");
    assert_eq!(truncate_text("abcdefg", 6), "abcdef...");
}

#[test]
fn truncate_text_cuts_at_last_char_boundary() {
    assert_eq!(truncate_text("h\u{e9}llo", 2), "h...");
    assert_eq!(truncate_text("h\u{e9}llo", 3), "h\u{e9}...");
    assert_eq!(truncate_text("\u{e9}\u{e9}", 1), "...");
    assert_eq!(truncate_text("\u{1f600}abc", 3), "...");
}

#[test]
fn format_numbers_like_display() {
    assert_eq!(format_u64(0), "0");
    assert_eq!(format_u64(1234567890), "1234567890");
    assert_eq!(format_u64(u64::MAX), u64::MAX.to_string());
    assert_eq!(format_i64(-42), "-42");
    assert_eq!(format_i64(i64::MIN), i64::MIN.to_string());
    assert_eq!(format_i64(7), "7");
}

#[test]
fn parse_i32_follows_std_parse() {
    for s in ["5", "-17", "+8", "", "-", "+", "12a", "2147483647", "2147483648", "-2147483648", "-2147483649", "007", " 5"] {
        assert_eq!(parse_i32(s), s.parse::<i32>().ok(), "input {s:?}");
    }
}

#[test]
fn parse_reads_back_formatted_numbers() {
    for n in [0i32, 1, -1, 99, i32::MAX, i32::MIN] {
        let text = format_i64(n as i64);
        assert_eq!(parse_i32(&text), Some(n));
    }
}

#[test]
fn template_escape_escapes_backslash_backtick_dollar() {
    assert_eq!(escape_template("a\\b`c$d"), "a\\\\b\\`c\\$d");
    assert_eq!(
        template_copy_command("Hi `you` $5"),
        "navigator.clipboard.writeText(`Hi \\`you\\` \\$5`).then(() => {}).catch(() => {});"
    );
}

#[test]
fn json_copy_command_embeds_serde_json_literal() {
    let content = "Say \"vote\"\nnow\\\u{1}";
    let expected = format!(
        "navigator.clipboard.writeText({}).catch(err => console.error('Copy failed:', err))",
        serde_json::to_string(content).unwrap()
    );
    assert_eq!(json_copy_command(content), expected);
    assert_eq!(
        json_copy_command("a\"b"),
        "navigator.clipboard.writeText(\"a\\\"b\").catch(err => console.error('Copy failed:', err))"
    );
    assert_eq!(
        json_copy_command("\u{1f}\t"),
        "navigator.clipboard.writeText(\"\\u001f\\t\").catch(err => console.error('Copy failed:', err))"
    );
}

#[test]
fn json_copy_round_trips_through_a_json_reader() {
    let content = "Line one\nLine \"two\"\t\\ \u{7} é";
    let cmd = json_copy_command(content);
    let start = "navigator.clipboard.writeText(".len();
    let end = cmd.len() - ").catch(err => console.error('Copy failed:', err))".len();
    let literal = &cmd[start..end];
    let back: String = serde_json::from_str(literal).unwrap();
    assert_eq!(back, content);
}

#[test]
fn briefing_sections_split_on_headers() {
    let content = "Intro text\n## Strengths\nStrong on economy.\nGood debater.\n\n## Weaknesses\n  Flip-flops  \n## Empty\n\n";
    let sections = parse_briefing_sections(content);
    assert_eq!(
        sections,
        vec![
            ("Strengths", "Strong on economy.\nGood debater."),
            ("Weaknesses", "Flip-flops"),
        ]
    );
}

#[test]
fn briefing_without_headers_has_no_sections() {
    assert!(parse_briefing_sections("Just a paragraph.\nAnother line.").is_empty());
    assert!(parse_briefing_sections("").is_empty());
}

#[test]
fn briefing_header_title_is_trimmed() {
    let sections = parse_briefing_sections("##   Key Votes  \r\nVoted no.\r\n");
    assert_eq!(sections, vec![("Key Votes", "Voted no.")]);
}

#[test]
fn briefing_with_crlf_lines_splits_like_lf() {
    assert_eq!(
        parse_briefing_sections("## A\r\nx\r\n## B\r\ny\r\n"),
        vec![("A", "x"), ("B", "y")]
    );
    let crlf = "## A\r\n\r\n\u{e9}t\u{e9}\r\n## B\nbody\n";
    assert_eq!(parse_briefing_sections(crlf), vec![("A", "\u{e9}t\u{e9}"), ("B", "body")]);
}

#[test]
fn briefing_header_without_body_gives_no_section() {
    assert!(parse_briefing_sections("## A").is_empty());
    assert_eq!(parse_briefing_sections("Intro\n## A\nalpha\n## Closing"), vec![("A", "alpha")]);
    assert!(parse_briefing_sections("## A\n\n  \n").is_empty());
}
