use sensei_lib::client::{
    endpoint, history_back, history_forward, line_kind, scroll_down, scroll_up, target_of,
    LineKind, Target,
};

#[test]
fn addresses_name_a_socket_or_an_http_base() {
    assert_eq!(target_of("unix:///tmp/sensei.sock"), Target::Unix("/tmp/sensei.sock".to_string()));
    assert_eq!(target_of("unix://unix://x"), Target::Unix("x".to_string()));
    assert_eq!(target_of("unix://"), Target::Unix(String::new()));
    assert_eq!(target_of("http://localhost:3000"), Target::Http("http://localhost:3000".to_string()));
    assert_eq!(target_of("http://localhost:3000///"), Target::Http("http://localhost:3000".to_string()));
    assert_eq!(target_of("UNIX://x/"), Target::Http("UNIX://x".to_string()));
    assert_eq!(target_of(""), Target::Http(String::new()));
    assert_eq!(target_of("///"), Target::Http(String::new()));
    for address in ["unix://a/b/", "unix://unix:/x", "http://h/", "h", "/", "unix:/x//", "unix://unix://"] {
        let expected = if address.starts_with("unix://") {
            Target::Unix(address.trim_start_matches("unix://").to_string())
        } else {
            Target::Http(address.trim_end_matches('/').to_string())
        };
        assert_eq!(target_of(address), expected, "{}", address);
    }
}

#[test]
fn endpoints_are_built_from_the_target() {
    assert_eq!(
        endpoint(&target_of("http://127.0.0.1:3000/"), "/v1/ask"),
        "http://127.0.0.1:3000/v1/ask"
    );
    assert_eq!(
        endpoint(&target_of("unix:///tmp/sensei.sock"), "/v1/ask"),
        "http://localhost/v1/ask"
    );
    assert_eq!(
        endpoint(&target_of("unix:///tmp/sensei.sock"), "/v1/knowledge/add"),
        "http://localhost/v1/knowledge/add"
    );
}

#[test]
fn lines_are_shown_by_the_first_rule_that_fits() {
    assert_eq!(line_kind("```rust", false), (LineKind::Code, true));
    assert_eq!(line_kind("```", true), (LineKind::Code, false));
    assert_eq!(line_kind("> inside code", true), (LineKind::Code, true));
    assert_eq!(line_kind("> hello", false), (LineKind::Prompt, false));
    assert_eq!(line_kind(">hello", false), (LineKind::Plain, false));
    assert_eq!(line_kind("Error: boom", false), (LineKind::Failure, false));
    assert_eq!(line_kind("error: boom", false), (LineKind::Plain, false));
    assert_eq!(line_kind("# Title", false), (LineKind::Heading, false));
    assert_eq!(line_kind("## Sub", false), (LineKind::Heading, false));
    assert_eq!(line_kind("### Deeper", false), (LineKind::Plain, false));
    assert_eq!(line_kind("\u{1f988} SENSEI CORE v0.1.3 - TUI ENHANCED", false), (LineKind::Banner, false));
    assert_eq!(line_kind("> \u{1f988} SENSEI", false), (LineKind::Prompt, false));
    assert_eq!(line_kind("", false), (LineKind::Plain, false));
    assert_eq!(line_kind("", true), (LineKind::Code, true));
}

#[test]
fn code_blocks_span_the_lines_between_fences() {
    let lines = ["intro", "```", "# not a heading", "```", "# heading"];
    let mut inside = false;
    let mut kinds = Vec::new();
    for line in lines {
        let (kind, next) = line_kind(line, inside);
        inside = next;
        kinds.push(kind);
    }
    assert_eq!(
        kinds,
        vec![LineKind::Plain, LineKind::Code, LineKind::Code, LineKind::Code, LineKind::Heading]
    );
    assert!(!inside);
}

#[test]
fn the_view_stays_between_the_first_and_the_last_line() {
    assert_eq!(scroll_down(Some(0), 3, 10), (3, false));
    assert_eq!(scroll_down(Some(6), 3, 10), (9, true));
    assert_eq!(scroll_down(Some(8), 3, 10), (9, true));
    assert_eq!(scroll_down(None, 1, 10), (1, false));
    assert_eq!(scroll_down(None, 1, 0), (0, true));
    assert_eq!(scroll_down(Some(5), 1, 0), (0, true));
    assert_eq!(scroll_down(Some(20), 1, 10), (9, true));
    assert_eq!(scroll_down(Some(usize::MAX), usize::MAX, usize::MAX), (usize::MAX - 1, true));
    for (selected, step, len) in [(Some(2usize), 3usize, 4usize), (None, 3, 1), (Some(0), 1, 2)] {
        let expected = (selected.unwrap_or(0) + step).min(len.saturating_sub(1));
        assert_eq!(scroll_down(selected, step, len).0, expected);
    }
    assert_eq!(scroll_up(Some(5), 3), 2);
    assert_eq!(scroll_up(Some(2), 3), 0);
    assert_eq!(scroll_up(None, 1), 0);
}

#[test]
fn history_moves_one_entry_at_a_time() {
    assert_eq!(history_back(0), None);
    assert_eq!(history_back(3), Some(2));
    assert_eq!(history_forward(0, 3), Some(1));
    assert_eq!(history_forward(2, 3), Some(3));
    assert_eq!(history_forward(3, 3), None);
    assert_eq!(history_forward(0, 0), None);
}
