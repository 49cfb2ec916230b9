use sensei_lib::common::{AgentCategory, AskRequest, AskResponse, Health};

#[test]
fn category_is_trimmed_and_lowercased() {
    assert_eq!(AgentCategory::new("  RED \n").as_str(), "red");
    assert_eq!(AgentCategory::new("FileSystem").as_str(), "filesystem");
    assert_eq!(AgentCategory::new("").as_str(), "");
}

#[test]
fn category_equality_is_by_normalized_name() {
    assert_eq!(AgentCategory::new("Blue"), AgentCategory::new(" blue"));
    assert_ne!(AgentCategory::new("blue"), AgentCategory::new("red"));
    assert!(AgentCategory::new("Blue").same_as(&AgentCategory::new("BLUE")));
    assert!(!AgentCategory::new("Blue").same_as(&AgentCategory::new("red")));
}

#[test]
fn category_is_shown_in_upper_case() {
    assert_eq!(AgentCategory::new("red").display(), "RED");
    assert_eq!(AgentCategory::new("loopback").display(), "LOOPBACK");
}

#[test]
fn category_from_str_normalizes() {
    let c: AgentCategory = AgentCategory::from(" Casual ");
    assert_eq!(c, AgentCategory::new("casual"));
    assert_eq!(c.clone().as_str(), "casual");
}

#[test]
fn category_lowercases_beyond_ascii() {
    assert_eq!(AgentCategory::new("ÉCOLE").as_str(), "école");
    assert_eq!(AgentCategory::new("straße").display(), "STRASSE");
}

#[test]
fn request_and_response_bodies_hold_their_text() {
    let h = Health { status: "ok".to_string() };
    let q = AskRequest { prompt: "hello".to_string() };
    let a = AskResponse { content: "world".to_string() };
    assert_eq!(h.status, "ok");
    assert_eq!(q.prompt, "hello");
    assert_eq!(a.content, "world");
}
