use sensei_lib::config::{
    is_listed, is_listed_upper, prompt_or, providers_to_add, providers_to_remove, AgentConfig,
    McpServerConfig, McpSettings, PromptsConfig,
};
use sensei_lib::errors::SenseiError;
use sensei_lib::json::json_candidate;
use sensei_lib::llm::{MODEL_CHAT_DEFAULT, MODEL_CHAT_FAST, MODEL_CHAT_SMART, MODEL_EMBEDDING};
use sensei_lib::memory::{f32_vec_to_bytes, knowledge_prompt, KNOWLEDGE_LIMIT};
use sensei_lib::text;

fn names(list: &[&str]) -> Vec<String> {
    list.iter().map(|s| s.to_string()).collect()
}

fn chars(s: &str) -> Vec<char> {
    s.chars().collect()
}

#[test]
fn prompts_are_found_by_key() {
    let config = PromptsConfig {
        agents: vec![
            ("router".to_string(), AgentConfig { prompt: "You are a Router.".to_string() }),
            ("red_team".to_string(), AgentConfig { prompt: "You are Red.".to_string() }),
        ],
    };
    assert_eq!(config.get("router").unwrap(), "You are a Router.");
    assert_eq!(config.get("red_team").unwrap(), "You are Red.");
    assert!(config.get("blue_team").is_none());
}

#[test]
fn prompt_falls_back_to_the_default() {
    let config = Some(PromptsConfig {
        agents: vec![
            ("red_team".to_string(), AgentConfig { prompt: "first".to_string() }),
            ("red_team".to_string(), AgentConfig { prompt: "second".to_string() }),
        ],
    });
    assert_eq!(prompt_or(&config, "red_team", "default"), "first");
    assert_eq!(prompt_or(&config, "casual", "SYSTEM: You are Sensei."), "SYSTEM: You are Sensei.");
    assert_eq!(prompt_or(&None, "red_team", "default"), "default");
}

#[test]
fn settings_hold_the_providers() {
    let settings = McpSettings {
        mcp_servers: vec![(
            "loopback".to_string(),
            McpServerConfig {
                command: "sensei-mcp".to_string(),
                args: vec!["--stdio".to_string()],
                env: Some(vec![("DATABASE_URL".to_string(), "sqlite::memory:".to_string())]),
            },
        )],
    };
    assert_eq!(settings.mcp_servers[0].0, "loopback");
    assert_eq!(settings.mcp_servers[0].1.command, "sensei-mcp");
    assert_eq!(settings.mcp_servers[0].1.args.len(), 1);
    assert_eq!(settings.mcp_servers[0].1.env.as_ref().unwrap().len(), 1);
}

#[test]
fn reload_diffs_known_against_configured() {
    let known = names(&["LOOPBACK", "FILES", "GIT"]);
    let configured = names(&["files", "weather", "Git", "maps"]);
    assert_eq!(providers_to_remove(&known, &configured), names(&["LOOPBACK"]));
    assert_eq!(providers_to_add(&known, &configured), names(&["weather", "maps"]));
    assert_eq!(providers_to_remove(&known, &Vec::new()), known);
    assert_eq!(providers_to_add(&Vec::new(), &configured), configured);
    assert!(providers_to_remove(&Vec::new(), &configured).is_empty());
    assert!(providers_to_add(&known, &names(&["git"])).is_empty());
    assert!(is_listed(&known, "GIT"));
    assert!(!is_listed(&known, "git"));
    assert!(is_listed_upper(&configured, "GIT"));
    assert!(!is_listed_upper(&configured, "Git"));
}

#[test]
fn embedding_is_written_least_significant_byte_first() {
    let floats = [0.0f32, 1.0, -2.5, 0.1, f32::MAX, f32::MIN_POSITIVE, f32::INFINITY];
    let bits: Vec<u32> = floats.iter().map(|f| f.to_bits()).collect();
    let mut expected = Vec::new();
    for f in floats {
        expected.extend_from_slice(&f.to_le_bytes());
    }
    assert_eq!(f32_vec_to_bytes(&bits), expected);
    assert_eq!(f32_vec_to_bytes(&vec![0x04030201]), vec![1, 2, 3, 4]);
    assert_eq!(f32_vec_to_bytes(&vec![u32::MAX, 0]), vec![255, 255, 255, 255, 0, 0, 0, 0]);
    assert!(f32_vec_to_bytes(&Vec::new()).is_empty());
}

#[test]
fn knowledge_is_put_before_the_query() {
    assert_eq!(knowledge_prompt(&Vec::new(), "q"), "q");
    assert_eq!(
        knowledge_prompt(&names(&["one"]), "q"),
        "RELEVANT KNOWLEDGE:\none\n\nUSER QUERY:\nq"
    );
    assert_eq!(
        knowledge_prompt(&names(&["one", "", "three"]), "q"),
        "RELEVANT KNOWLEDGE:\none\n---\n\n---\nthree\n\nUSER QUERY:\nq"
    );
    assert_eq!(KNOWLEDGE_LIMIT, 3);
}

#[test]
fn every_error_has_its_message() {
    let d = || "detail".to_string();
    assert_eq!(SenseiError::Sqlx(d()).message(), "Database error: detail");
    assert_eq!(SenseiError::Migration(d()).message(), "Migration error: detail");
    assert_eq!(SenseiError::Io(d()).message(), "Configuration IO error: detail");
    assert_eq!(SenseiError::Yaml(d()).message(), "Configuration Parse error: detail");
    assert_eq!(SenseiError::Config(d()).message(), "Configuration error: detail");
    assert_eq!(SenseiError::Llm(d()).message(), "LLM error: detail");
    assert_eq!(SenseiError::Tool(d()).message(), "Tool execution error: detail");
    assert_eq!(SenseiError::Unknown(String::new()).message(), "Unknown error: ");
}

#[test]
fn models_are_named() {
    assert_eq!(MODEL_CHAT_FAST, "gemini-2.5-flash");
    assert_eq!(MODEL_CHAT_SMART, "gemini-3-pro-preview");
    assert_eq!(MODEL_CHAT_DEFAULT, MODEL_CHAT_FAST);
    assert_eq!(MODEL_EMBEDDING, "gemini-embedding-001");
}

#[test]
fn candidate_runs_from_first_to_last_brace() {
    assert_eq!(json_candidate("x {\"a\": {\"b\": 1}} y").unwrap(), "{\"a\": {\"b\": 1}}");
    assert_eq!(json_candidate("no braces").unwrap(), "no braces");
    assert_eq!(json_candidate("open { only").unwrap(), "{ only");
    assert_eq!(json_candidate("close } only").unwrap(), "close }");
    assert_eq!(json_candidate("").unwrap(), "");
    assert_eq!(json_candidate("\u{e9}{\u{e9}}\u{e9}").unwrap(), "{\u{e9}}");
    assert!(json_candidate("} {").is_none());
    assert_eq!(json_candidate("}").unwrap(), "}");
}

#[test]
fn text_search_agrees_with_std() {
    let samples = ["", "a", "abc", "aaa", "abcabc", "scan 10.0.0.5", "\u{e9}t\u{e9}", "x nmap y"];
    let patterns = ["", "a", "bc", "abc", "abcd", "aa", "nmap", "scan ", "\u{e9}"];
    for s in samples {
        for p in patterns {
            assert_eq!(text::contains(&chars(s), &chars(p)), s.contains(p), "{:?} {:?}", s, p);
            assert_eq!(text::starts_with(&chars(s), &chars(p)), s.starts_with(p), "{:?} {:?}", s, p);
        }
        for c in ['a', 'c', '{', '\u{e9}'] {
            let first = s.chars().position(|x| x == c);
            let last = s.chars().collect::<Vec<_>>().iter().rposition(|x| *x == c);
            assert_eq!(text::find_first(&chars(s), c), first);
            assert_eq!(text::find_last(&chars(s), c), last);
        }
        assert_eq!(text::chars_of(s), chars(s));
    }
    assert!(text::matches_at(&chars("abc"), &chars("bc"), 1));
    assert!(!text::matches_at(&chars("abc"), &chars("bc"), 2));
    assert!(!text::matches_at(&chars("abc"), &chars("bc"), 9));
    assert!(text::same_text("ab", "ab"));
    assert!(!text::same_text("ab", "aB"));
}

#[test]
fn trimming_agrees_with_std() {
    for s in ["", " ", "a", "  a b \n", "\t\u{a0}x\u{2003}", "\u{85}y\u{85}", "z  ", "  z", " \n "] {
        let trimmed: String = text::trim(&chars(s)).into_iter().collect();
        assert_eq!(trimmed, s.trim(), "{:?}", s);
    }
    assert_eq!(text::skip_spaces(&chars("  ab "), 0), 2);
    assert_eq!(text::skip_spaces(&chars("  ab "), 2), 2);
    assert_eq!(text::skip_spaces(&chars("  ab "), 4), 5);
    assert_eq!(text::skip_spaces_back(&chars("  ab "), 5), 4);
    assert_eq!(text::skip_spaces_back(&chars("  ab "), 2), 0);
    assert_eq!(text::slice_of(&chars("hello"), 1, 3), chars("el"));
    let mut out = chars("ab");
    text::extend(&mut out, &chars("cd"));
    assert_eq!(out, chars("abcd"));
    assert_eq!(text::remove_char(&chars("\"a\"\"b"), '"'), chars("ab"));
}

#[test]
fn decimals_agree_with_std() {
    for n in [0u64, 1, 9, 10, 11, 99, 100, 12345, u32::MAX as u64, u64::MAX] {
        let text: String = text::decimal(n).into_iter().collect();
        assert_eq!(text, n.to_string());
    }
    for i in [0i64, -1, 1, -10, 42, -32601, i32::MIN as i64, i32::MAX as i64, i64::MIN, i64::MAX] {
        let text: String = text::signed_decimal(i).into_iter().collect();
        assert_eq!(text, i.to_string());
    }
}
