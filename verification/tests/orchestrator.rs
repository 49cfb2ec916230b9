use sensei_lib::agents::{Agent, Orchestrator, MAX_DELEGATION_DEPTH};
use sensei_lib::common::AgentCategory;
use std::sync::atomic::{AtomicUsize, Ordering};
use std::sync::Arc;

struct MockRedAgent;

impl Agent for MockRedAgent {
    fn process(&self, _input: &str) -> String {
        "Red Team Attack Plan".to_string()
    }

    fn category(&self) -> AgentCategory {
        AgentCategory::new("red")
    }
}

struct Fixed {
    category: &'static str,
    reply: &'static str,
    calls: Arc<AtomicUsize>,
}

impl Fixed {
    fn boxed(category: &'static str, reply: &'static str) -> Box<dyn Agent> {
        Box::new(Fixed { category, reply, calls: Arc::new(AtomicUsize::new(0)) })
    }
}

impl Agent for Fixed {
    fn process(&self, _input: &str) -> String {
        self.calls.fetch_add(1, Ordering::SeqCst);
        self.reply.to_string()
    }

    fn category(&self) -> AgentCategory {
        AgentCategory::new(self.category)
    }
}

struct DelegatorAgent;

impl Agent for DelegatorAgent {
    fn process(&self, input: &str) -> String {
        if input.contains("[OBSERVATION") {
            return format!("Success! {}", input);
        }
        "[DELEGATE: loopback] uptime".to_string()
    }

    fn category(&self) -> AgentCategory {
        AgentCategory::new("casual")
    }
}

struct LoopbackAgent;

impl Agent for LoopbackAgent {
    fn process(&self, input: &str) -> String {
        format!(
            "Tool 'system_diagnostic' on loopback executed successfully:\n\nran {}",
            input
        )
    }

    fn category(&self) -> AgentCategory {
        AgentCategory::new("loopback")
    }
}

struct Echo(&'static str);

impl Agent for Echo {
    fn process(&self, input: &str) -> String {
        format!("<{}>", input)
    }

    fn category(&self) -> AgentCategory {
        AgentCategory::new(self.0)
    }
}

#[test]
fn swarm_routing_works() {
    let mut orch = Orchestrator::new();
    orch.register(Box::new(MockRedAgent));

    let response = orch.dispatch(AgentCategory::new("red"), "Hack wifi");
    assert_eq!(response, "Red Team Attack Plan");

    let response_blue = orch.dispatch(AgentCategory::new("blue"), "Analyze logs");
    assert!(response_blue.contains("No agent") || response_blue.is_empty());
}

#[test]
fn missing_handler_message_names_the_category() {
    let orch = Orchestrator::new();
    let out = orch.dispatch(AgentCategory::new("Blue"), "x");
    assert_eq!(
        out,
        "No agent found for category AgentCategory(\"blue\") and Casual fallback missing"
    );
    assert!(out.contains("blue"));
    assert!(out.contains("fallback missing"));
}

#[test]
fn depth_zero_returns_the_limit_message_and_asks_nobody() {
    let calls = Arc::new(AtomicUsize::new(0));
    let mut orch = Orchestrator::new();
    orch.register(Box::new(Fixed { category: "red", reply: "never", calls: calls.clone() }));
    let out = orch.dispatch_loop(AgentCategory::new("red"), "anything", 0);
    assert_eq!(out, "Error: Agent recursion limit reached (A2A loop detected).");
    assert_eq!(calls.load(Ordering::SeqCst), 0);
    let out = orch.dispatch_loop(AgentCategory::new("nobody"), "", 0);
    assert_eq!(out, "Error: Agent recursion limit reached (A2A loop detected).");
}

#[test]
fn register_then_lookup_finds_the_handler() {
    let mut orch = Orchestrator::new();
    assert!(orch.lookup(&AgentCategory::new("red")).is_none());
    orch.register(Fixed::boxed("red", "one"));
    let found = orch.lookup(&AgentCategory::new("RED")).unwrap();
    assert_eq!(found.process("x"), "one");
    assert_eq!(found.category(), AgentCategory::new("red"));
    orch.unregister(&AgentCategory::new("red"));
    assert!(orch.lookup(&AgentCategory::new("red")).is_none());
    orch.unregister(&AgentCategory::new("red"));
    assert!(orch.lookup(&AgentCategory::new("red")).is_none());
}

#[test]
fn registering_again_replaces_the_handler() {
    let mut orch = Orchestrator::new();
    orch.register(Fixed::boxed("red", "one"));
    orch.register(Fixed::boxed("blue", "other"));
    orch.register(Fixed::boxed("red", "two"));
    assert_eq!(orch.dispatch(AgentCategory::new("red"), "x"), "two");
    assert_eq!(orch.dispatch(AgentCategory::new("blue"), "x"), "other");
    orch.unregister(&AgentCategory::new("red"));
    assert_eq!(
        orch.dispatch(AgentCategory::new("red"), "x"),
        "No agent found for category AgentCategory(\"red\") and Casual fallback missing"
    );
    assert_eq!(orch.dispatch(AgentCategory::new("blue"), "x"), "other");
}

#[test]
fn registering_the_same_handler_twice_changes_nothing() {
    let mut once = Orchestrator::new();
    once.register(Fixed::boxed("red", "same"));
    let mut twice = Orchestrator::new();
    twice.register(Fixed::boxed("red", "same"));
    twice.register(Fixed::boxed("red", "same"));
    for category in ["red", "blue", "casual"] {
        assert_eq!(
            once.dispatch(AgentCategory::new(category), "q"),
            twice.dispatch(AgentCategory::new(category), "q")
        );
        assert_eq!(
            once.lookup(&AgentCategory::new(category)).is_some(),
            twice.lookup(&AgentCategory::new(category)).is_some()
        );
    }
}

#[test]
fn missing_handler_falls_back_to_casual() {
    let mut orch = Orchestrator::new();
    orch.register(Fixed::boxed("casual", "casual answer"));
    assert_eq!(orch.dispatch(AgentCategory::new("osint"), "x"), "casual answer");
}

#[test]
fn delegation_feeds_the_observation_back() {
    let mut orchestrator = Orchestrator::new();
    orchestrator.register(Box::new(DelegatorAgent));
    orchestrator.register(Box::new(LoopbackAgent));

    let response = orchestrator.dispatch(AgentCategory::new("casual"), "Do the thing");

    assert!(response.contains("[OBSERVATION from loopback]"));
    assert!(response.contains("Tool 'system_diagnostic' on loopback executed successfully"));
    assert_eq!(
        response,
        "Success! Do the thing\n\n[OBSERVATION from loopback]\nTool 'system_diagnostic' on loopback executed successfully:\n\nran uptime"
    );
}

#[test]
fn delegation_to_an_unregistered_target_falls_back() {
    let mut orch = Orchestrator::new();
    orch.register(Box::new(DelegatorAgent));
    let out = orch.dispatch(AgentCategory::new("casual"), "go");
    // The target has no handler, so the default handler answers the payload:
    // it delegates again until the depth is used up.
    assert!(out.starts_with("Success! go\n\n[OBSERVATION from loopback]\n"));
    assert!(out.contains("Error: Agent recursion limit reached (A2A loop detected)."));
}

#[test]
fn a_handler_that_always_delegates_ends_at_the_limit() {
    let calls = Arc::new(AtomicUsize::new(0));
    let mut orch = Orchestrator::new();
    orch.register(Box::new(Fixed {
        category: "red",
        reply: "[DELEGATE: red] again",
        calls: calls.clone(),
    }));
    let out = orch.dispatch(AgentCategory::new("red"), "start");
    assert_eq!(out, "Error: Agent recursion limit reached (A2A loop detected).");
    // One call per turn that asks the handler: 1 + 2 + 4 with a depth of 3.
    assert_eq!(MAX_DELEGATION_DEPTH, 3);
    assert_eq!(calls.load(Ordering::SeqCst), 7);
}

#[test]
fn observation_is_built_from_the_original_input() {
    struct Once;
    impl Agent for Once {
        fn process(&self, input: &str) -> String {
            if input.contains("[OBSERVATION from ") {
                format!("final:{}", input)
            } else {
                "thinking...\n[DELEGATE: Echo]  \n ping \n".to_string()
            }
        }
        fn category(&self) -> AgentCategory {
            AgentCategory::new("once")
        }
    }
    let mut orch = Orchestrator::new();
    orch.register(Box::new(Once));
    orch.register(Box::new(Echo("echo")));
    let out = orch.dispatch(AgentCategory::new("once"), "question");
    assert_eq!(out, "final:question\n\n[OBSERVATION from Echo]\n<ping>");
}

#[test]
fn default_registry_is_empty() {
    let orch = Orchestrator::default();
    assert!(orch.lookup(&AgentCategory::new("casual")).is_none());
}

#[test]
fn a_found_handler_can_be_registered_again() {
    let calls = Arc::new(AtomicUsize::new(0));
    let mut orch = Orchestrator::new();
    orch.register(Box::new(Fixed { category: "red", reply: "shared", calls: calls.clone() }));
    orch.register(Fixed::boxed("blue", "other"));
    let found = orch.lookup(&AgentCategory::new("red")).unwrap();

    // The same handler again, for the same category: nothing changes.
    orch.register_shared(found.clone());
    orch.register_shared(found.clone());
    assert_eq!(orch.dispatch(AgentCategory::new("red"), "x"), "shared");
    assert_eq!(orch.dispatch(AgentCategory::new("blue"), "x"), "other");
    let again = orch.lookup(&AgentCategory::new("red")).unwrap();
    assert!(Arc::ptr_eq(&found, &again));

    // The same handler in a second registry: one object serves both.
    let mut second = Orchestrator::new();
    second.register_shared(found);
    assert_eq!(second.dispatch(AgentCategory::new("red"), "y"), "shared");
    assert_eq!(calls.load(Ordering::SeqCst), 2);

    orch.unregister(&AgentCategory::new("red"));
    assert!(orch.lookup(&AgentCategory::new("red")).is_none());
    assert!(second.lookup(&AgentCategory::new("red")).is_some());
}
