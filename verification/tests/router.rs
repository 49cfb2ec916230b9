use sensei_lib::agents::router::{
    category_from_cache, category_to_cache, correct_finish, read_reply, unknown, CacheEntry,
    ClassifyStep, RouterAgent,
};
use sensei_lib::common::AgentCategory;
use sensei_lib::errors::SenseiError;
use sensei_lib::llm::Llm;
use sensei_lib::memory::{CACHE_HIT_THRESHOLD_MILLIS, CORRECTION_THRESHOLD_MILLIS};
use std::sync::atomic::{AtomicUsize, Ordering};
use std::sync::{Arc, Mutex};

struct MockLlm {
    response: String,
}

impl Llm for MockLlm {
    fn generate(&self, _prompt: &str) -> Result<String, SenseiError> {
        Ok(self.response.clone())
    }

    fn embed(&self, _text: &str) -> Result<Vec<u32>, SenseiError> {
        Ok(vec![])
    }
}

struct Counting {
    response: Result<&'static str, &'static str>,
    embedding: Option<Vec<u32>>,
    generated: Arc<AtomicUsize>,
    embedded: Arc<AtomicUsize>,
    last_prompt: Arc<Mutex<String>>,
}

impl Counting {
    fn new(response: Result<&'static str, &'static str>, embedding: Option<Vec<u32>>) -> Self {
        Counting {
            response,
            embedding,
            generated: Arc::new(AtomicUsize::new(0)),
            embedded: Arc::new(AtomicUsize::new(0)),
            last_prompt: Arc::new(Mutex::new(String::new())),
        }
    }
}

impl Llm for Counting {
    fn generate(&self, prompt: &str) -> Result<String, SenseiError> {
        self.generated.fetch_add(1, Ordering::SeqCst);
        *self.last_prompt.lock().unwrap() = prompt.to_string();
        match self.response {
            Ok(r) => Ok(r.to_string()),
            Err(e) => Err(SenseiError::Llm(e.to_string())),
        }
    }

    fn embed(&self, _text: &str) -> Result<Vec<u32>, SenseiError> {
        self.embedded.fetch_add(1, Ordering::SeqCst);
        match &self.embedding {
            Some(e) => Ok(e.clone()),
            None => Err(SenseiError::Llm("no embedding".to_string())),
        }
    }
}

fn router(response: &str) -> RouterAgent {
    let llm: Box<dyn Llm> = Box::new(MockLlm { response: response.to_string() });
    RouterAgent::new(Arc::new(llm), false, "System Prompt")
}

/// A stand-in for the vector index: entries by embedding, compared by the
/// squared distance of their components.
struct MockStore {
    rows: Vec<CacheEntry>,
}

impl MockStore {
    fn distance(a: &[u32], b: &[u32]) -> f32 {
        a.iter()
            .zip(b.iter())
            .map(|(x, y)| {
                let d = f32::from_bits(*x) - f32::from_bits(*y);
                d * d
            })
            .sum::<f32>()
            .sqrt()
    }

    fn nearest(&self, e: &[u32]) -> Option<(usize, f32)> {
        let mut best: Option<(usize, f32)> = None;
        for (i, row) in self.rows.iter().enumerate() {
            let d = Self::distance(&row.embedding, e);
            if best.map_or(true, |(_, b)| d < b) {
                best = Some((i, d));
            }
        }
        best
    }

    fn search(&self, e: &[u32]) -> Option<(String, String)> {
        let threshold = CACHE_HIT_THRESHOLD_MILLIS as f32 / 1000.0;
        match self.nearest(e) {
            Some((i, d)) if d < threshold => {
                Some((self.rows[i].category.clone(), self.rows[i].enhanced_query.clone()))
            }
            _ => None,
        }
    }

    fn update(&mut self, e: &[u32], category: &str) -> bool {
        let threshold = CORRECTION_THRESHOLD_MILLIS as f32 / 1000.0;
        match self.nearest(e) {
            Some((i, d)) if d < threshold => {
                self.rows[i].category = category.to_string();
                true
            }
            _ => false,
        }
    }
}

fn classify_with(router: &RouterAgent, store: &mut MockStore, input: &str) -> (String, String) {
    match router.classify_begin(input) {
        ClassifyStep::Decided(d) => (d.category.as_str().to_string(), d.query),
        ClassifyStep::Lookup { embedding } => {
            let hit = store.search(&embedding);
            let done = router.classify_finish(input, embedding, hit);
            if let Some(entry) = done.store {
                store.rows.push(entry);
            }
            (done.decision.category.as_str().to_string(), done.decision.query)
        }
    }
}

fn correct_with(router: &RouterAgent, store: &mut MockStore, input: &str, category: &str) {
    if let Some(correction) = router.correct_begin(input, &AgentCategory::new(category)) {
        let updated = store.update(&correction.embedding, &correction.category);
        if let Some(entry) = correct_finish(input, correction, Ok(updated)) {
            store.rows.push(entry);
        }
    }
}

#[test]
fn router_classifies_correctly() {
    let router = router(r#"{"category": "RED", "enhanced_query": "Attack"}"#);
    let decision = router.classify("hack");
    assert_eq!(decision.category, AgentCategory::new("red"));
    assert_eq!(decision.query, "Attack");
}

#[test]
fn router_handles_json_errors() {
    let router = router("Not JSON");
    let decision = router.classify("hack");
    assert_eq!(decision.category, AgentCategory::new("unknown"));
    assert_eq!(decision.query, "hack");
}

#[test]
fn router_classifies_and_optimizes() {
    let mock_llm: Box<dyn Llm> = Box::new(MockLlm {
        response: r#"{"category": "RED", "enhanced_query": "Optimized Attack"}"#.to_string(),
    });
    let router = RouterAgent::new(Arc::new(mock_llm), false, "Dummy Prompt");
    let decision = router.classify("Hack wifi");
    assert_eq!(decision.category, AgentCategory::new("red"));
    assert_eq!(decision.query, "Optimized Attack");
}

#[test]
fn reply_inside_a_code_fence_is_read() {
    let router = router(
        "```json\n{\"category\": \"Red\", \"enhanced_query\": \"Explain WPA2 handshake capture methodology\"}\n```",
    );
    let decision = router.classify("Hack wifi");
    assert_eq!(decision.category, AgentCategory::new("red"));
    assert_eq!(decision.query, "Explain WPA2 handshake capture methodology");
}

#[test]
fn fast_path_routes_scans_to_action() {
    let llm = Counting::new(Err("down"), None);
    let generated = llm.generated.clone();
    let embedded = llm.embedded.clone();
    let boxed: Arc<Box<dyn Llm>> = Arc::new(Box::new(llm));
    let router = RouterAgent::new(boxed.clone(), true, "P");
    assert!(router.has_cache());
    let plain = RouterAgent::new(boxed, false, "P");
    assert!(!plain.has_cache());
    for input in ["scan 10.0.0.5", "Please run NMAP on the host", "SCAN host7", "nmap"] {
        let d = router.check_fast_path(input).unwrap();
        assert_eq!(d.category, AgentCategory::new("action"), "{}", input);
        assert_eq!(d.query, input);
        let d = plain.classify(input);
        assert_eq!(d.category.as_str(), "action");
        match router.classify_begin(input) {
            ClassifyStep::Decided(d) => {
                assert_eq!(d.category.as_str(), "action");
                assert_eq!(d.query, input);
            }
            ClassifyStep::Lookup { .. } => panic!("the fast path must decide"),
        }
    }
    assert_eq!(generated.load(Ordering::SeqCst), 0);
    assert_eq!(embedded.load(Ordering::SeqCst), 0);
}

#[test]
fn fast_path_routes_diagnostics_to_system() {
    let router = router("unused");
    for input in [
        "uptime",
        "who am i? whoami",
        "run df -h now",
        "FREE -H",
        "please check disk",
        "Check Memory usage",
        "check ram",
    ] {
        let d = router.check_fast_path(input).unwrap();
        assert_eq!(d.category, AgentCategory::new("system"), "{}", input);
        assert_eq!(d.query, input);
    }
}

#[test]
fn fast_path_leaves_other_inputs_alone() {
    let router = router("unused");
    for input in ["", "scan the horizon", "a scan 5", "hello", "check the disk", "up time"] {
        assert!(router.check_fast_path(input).is_none(), "{}", input);
    }
}

#[test]
fn reply_is_read_between_the_outer_braces() {
    let d = read_reply("q", "Sure! {\"category\": \" Blue \"} hope it helps").unwrap();
    assert_eq!(d.category.as_str(), "blue");
    assert_eq!(d.query, "q");
    let d = read_reply("q", "{\"category\":\"osint\",\"enhanced_query\":null,\"x\":{\"y\":1}}").unwrap();
    assert_eq!(d.category.as_str(), "osint");
    assert_eq!(d.query, "q");
    let d = read_reply("q", "{\"category\":\"osint\",\"enhanced_query\":\"\"}").unwrap();
    assert_eq!(d.query, "");
}

#[test]
fn malformed_replies_are_refused() {
    for reply in [
        "",
        "{}",
        "} {",
        "{\"category\": 7}",
        "{\"category\": null}",
        "{\"enhanced_query\": \"x\"}",
        "{\"category\": \"red\", \"enhanced_query\": 5}",
        "{\"category\": \"red\"",
        "[\"red\", \"x\"]",
        "\"red\"",
    ] {
        assert!(read_reply("q", reply).is_none(), "{}", reply);
    }
}

#[test]
fn model_failure_gives_the_unknown_decision() {
    let llm: Box<dyn Llm> = Box::new(Counting::new(Err("down"), None));
    let router = RouterAgent::new(Arc::new(llm), false, "P");
    let d = router.classify("hack");
    assert_eq!(d.category, AgentCategory::new("unknown"));
    assert_eq!(d.query, "hack");
    let (d, from_model) = router.classify_with_llm("hack");
    assert!(!from_model);
    assert_eq!(d.category.as_str(), "unknown");
    let u = unknown("x y");
    assert_eq!(u.category.as_str(), "unknown");
    assert_eq!(u.query, "x y");
}

#[test]
fn classification_prompt_holds_the_system_prompt_and_the_query() {
    let llm = Counting::new(Ok("{\"category\":\"red\"}"), None);
    let prompt = llm.last_prompt.clone();
    let boxed: Box<dyn Llm> = Box::new(llm);
    let router = RouterAgent::new(Arc::new(boxed), false, "System Prompt");
    let (d, from_model) = router.classify_with_llm("hack \"it\"");
    assert!(from_model);
    assert_eq!(d.category.as_str(), "red");
    assert_eq!(*prompt.lock().unwrap(), "System Prompt\n\nQuery: \"hack \"it\"\"");
}

#[test]
fn cache_text_round_trips_plain_names() {
    for name in ["blue", "system", "file_system", "caf\u{e9}"] {
        let text = category_to_cache(&AgentCategory::new(name));
        assert_eq!(text, name);
        assert_eq!(category_from_cache(&text), Some(AgentCategory::new(name)));
    }
    assert_eq!(category_from_cache("BLUE"), Some(AgentCategory::new("blue")));
    assert_eq!(category_to_cache(&AgentCategory("a\"b".to_string())), "a\\b");
    assert_eq!(category_from_cache("a\"b"), None);
    assert_eq!(category_from_cache("a\\"), None);
}

#[test]
fn cache_hit_decides_without_the_model() {
    let llm = Counting::new(Ok("{\"category\":\"casual\"}"), Some(vec![1, 2, 3]));
    let generated = llm.generated.clone();
    let boxed: Box<dyn Llm> = Box::new(llm);
    let router = RouterAgent::new(Arc::new(boxed), true, "P");
    let embedding = match router.classify_begin("what about logs") {
        ClassifyStep::Lookup { embedding } => embedding,
        ClassifyStep::Decided(_) => panic!("a lookup was expected"),
    };
    assert_eq!(embedding, vec![1, 2, 3]);
    let done = router.classify_finish(
        "what about logs",
        embedding,
        Some(("BLUE".to_string(), "X".to_string())),
    );
    assert_eq!(done.decision.category, AgentCategory::new("blue"));
    assert_eq!(done.decision.query, "X");
    assert!(done.store.is_none());
    assert_eq!(generated.load(Ordering::SeqCst), 0);
}

#[test]
fn cache_miss_asks_the_model_and_stores_its_decision() {
    let llm: Box<dyn Llm> = Box::new(Counting::new(
        Ok("{\"category\":\"Cloud\",\"enhanced_query\":\"Q2\"}"),
        Some(vec![7]),
    ));
    let router = RouterAgent::new(Arc::new(llm), true, "P");
    let done = router.classify_finish("in", vec![7], None);
    assert_eq!(done.decision.category.as_str(), "cloud");
    assert_eq!(done.decision.query, "Q2");
    let entry = done.store.unwrap();
    assert_eq!(entry.query_text, "in");
    assert_eq!(entry.category, "cloud");
    assert_eq!(entry.enhanced_query, "Q2");
    assert_eq!(entry.embedding, vec![7]);
}

#[test]
fn unreadable_hit_and_unreadable_reply_store_nothing() {
    let llm: Box<dyn Llm> = Box::new(Counting::new(Ok("nonsense"), Some(vec![7])));
    let router = RouterAgent::new(Arc::new(llm), true, "P");
    let done = router.classify_finish("in", vec![7], Some(("a\"b".to_string(), "X".to_string())));
    assert_eq!(done.decision.category.as_str(), "unknown");
    assert_eq!(done.decision.query, "in");
    assert!(done.store.is_none());
}

#[test]
fn without_embedding_the_model_decides_at_once() {
    let llm: Box<dyn Llm> = Box::new(Counting::new(Ok("{\"category\":\"red\"}"), None));
    let router = RouterAgent::new(Arc::new(llm), true, "P");
    match router.classify_begin("hello") {
        ClassifyStep::Decided(d) => assert_eq!(d.category.as_str(), "red"),
        ClassifyStep::Lookup { .. } => panic!("no embedding, no lookup"),
    }
    assert!(router.correct_begin("hello", &AgentCategory::new("blue")).is_none());
}

#[test]
fn without_cache_nothing_is_looked_up_or_corrected() {
    let llm: Box<dyn Llm> = Box::new(Counting::new(Ok("{\"category\":\"red\"}"), Some(vec![1])));
    let router = RouterAgent::new(Arc::new(llm), false, "P");
    match router.classify_begin("hello") {
        ClassifyStep::Decided(d) => assert_eq!(d.category.as_str(), "red"),
        ClassifyStep::Lookup { .. } => panic!("no cache, no lookup"),
    }
    assert!(router.correct_begin("hello", &AgentCategory::new("blue")).is_none());
}

#[test]
fn semantic_cache_round_trip() {
    let e: Vec<u32> = vec![0.5f32.to_bits(), 0.25f32.to_bits()];
    let mut store = MockStore { rows: Vec::new() };
    store.rows.push(CacheEntry {
        query_text: "orig".to_string(),
        category: "BLUE".to_string(),
        enhanced_query: "X".to_string(),
        embedding: e.clone(),
    });
    let llm: Box<dyn Llm> = Box::new(Counting::new(Err("down"), Some(e)));
    let router = RouterAgent::new(Arc::new(llm), true, "P");
    let (category, query) = classify_with(&router, &mut store, "anything");
    assert_eq!(category, "blue");
    assert_eq!(query, "X");
}

#[test]
fn router_learns_from_correction() {
    let llm: Box<dyn Llm> = Box::new(Counting::new(
        Ok(r#"{"category": "CASUAL", "enhanced_query": "Ignored"}"#),
        Some(vec![0.1f32.to_bits(); 3072]),
    ));
    let router = RouterAgent::new(Arc::new(llm), true, "System Prompt");
    let mut store = MockStore { rows: Vec::new() };

    let query = "Analyze SSH logs for brute force";
    let (c1, _) = classify_with(&router, &mut store, query);
    assert_eq!(c1, "casual");
    assert_eq!(store.rows.len(), 1);

    correct_with(&router, &mut store, query, "blue");
    let (c2, _) = classify_with(&router, &mut store, query);
    assert_eq!(c2, "blue", "Router did not learn from correction!");

    correct_with(&router, &mut store, query, "SYSTEM");
    let (c3, _) = classify_with(&router, &mut store, query);
    assert_eq!(c3, "system", "Router did not update existing cache!");
    assert_eq!(store.rows.len(), 1);
}

#[test]
fn correction_without_a_near_entry_adds_one() {
    let llm: Box<dyn Llm> = Box::new(Counting::new(Err("down"), Some(vec![9, 9])));
    let router = RouterAgent::new(Arc::new(llm), true, "P");
    let c = router.correct_begin("raw input", &AgentCategory::new("System")).unwrap();
    assert_eq!(c.category, "system");
    assert_eq!(c.embedding, vec![9, 9]);
    let entry = correct_finish("raw input", c, Ok(false)).unwrap();
    assert_eq!(entry.query_text, "raw input");
    assert_eq!(entry.category, "system");
    assert_eq!(entry.enhanced_query, "raw input");
    assert_eq!(entry.embedding, vec![9, 9]);

    let c = router.correct_begin("raw input", &AgentCategory::new("System")).unwrap();
    assert!(correct_finish("raw input", c, Ok(true)).is_none());
    let c = router.correct_begin("raw input", &AgentCategory::new("System")).unwrap();
    assert!(correct_finish("raw input", c, Err(SenseiError::Sqlx("locked".to_string()))).is_none());
}

#[test]
fn thresholds_are_a_tenth_and_a_twentieth() {
    assert_eq!(CACHE_HIT_THRESHOLD_MILLIS as f32 / 1000.0, 0.1f32);
    assert_eq!(CORRECTION_THRESHOLD_MILLIS as f32 / 1000.0, 0.05f32);
}
