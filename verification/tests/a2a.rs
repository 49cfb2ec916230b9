use sensei_lib::agents::mcp_agent::{McpAgent, McpStep};
use sensei_lib::agents::{Agent, Orchestrator};
use sensei_lib::common::AgentCategory;
use sensei_lib::errors::SenseiError;
use sensei_lib::llm::Llm;
use sensei_lib::mcp_client::{listed_tools, tool_output, McpClient, McpError, Reading};
use sensei_lib::mcp_server::{read_request, write_response, McpServer, ServerStep};
use sensei_lib::tools::system::SystemTool;
use sensei_lib::tools::{CommandOutput, Tool};
use serde_json::Value;
use std::sync::{Arc, Mutex};

struct DelegatorAgent;

impl Agent for DelegatorAgent {
    fn process(&self, input: &str) -> String {
        if input.contains("[OBSERVATION") {
            return format!("Success! {}", input);
        }
        "[DELEGATE: loopback] uptime".to_string()
    }

    fn category(&self) -> AgentCategory {
        AgentCategory::new("casual")
    }
}

struct DecisionLlm;

impl Llm for DecisionLlm {
    fn generate(&self, _prompt: &str) -> Result<String, SenseiError> {
        Ok(r#"{"tool_name": "system_diagnostic", "arguments": {"command": "uptime"}}"#.to_string())
    }

    fn embed(&self, _text: &str) -> Result<Vec<u32>, SenseiError> {
        Ok(vec![])
    }
}

/// The diagnostics, with a run that is made up.
struct Diagnostics;

impl Tool for Diagnostics {
    fn name(&self) -> &str {
        "system_diagnostic"
    }

    fn execute(&self, key: &str) -> Result<String, SenseiError> {
        let plan = SystemTool.plan(key)?;
        SystemTool.report(
            &plan.program,
            Ok(CommandOutput {
                success: true,
                stdout: " 10:00:00 up 3 days, load average: 0.10\n".to_string(),
                stderr: String::new(),
            }),
        )
    }
}

/// A provider in the same process: every line goes straight to the server.
struct Loopback {
    server: McpServer,
    session: Mutex<McpClient>,
}

impl Loopback {
    fn new() -> Self {
        let mut server = McpServer::new();
        server.register_tool(Box::new(Diagnostics));
        Loopback { server, session: Mutex::new(McpClient::new()) }
    }

    fn exchange(&self, id: u64, line: &str) -> Result<Value, String> {
        let request = read_request(line).ok_or("the provider could not read the request")?;
        let response = match self.server.handle_request(request) {
            ServerStep::Respond(r) => r,
            _ => return Err("the provider has no store".to_string()),
        };
        let noise = "starting up...\n";
        match McpClient::read_line(id, noise) {
            Reading::Skip => {}
            _ => return Err("noise must be skipped".to_string()),
        }
        match McpClient::read_line(id, &format!("{}\n", write_response(&response))) {
            Reading::Answered(v) => Ok(v),
            Reading::Failed(e) => Err(McpError::Remote(e).message()),
            Reading::Skip => Err(McpClient::closed().message()),
        }
    }

    fn list_tools(&self) -> Vec<Value> {
        let mut session = self.session.lock().unwrap();
        let request = session.initialize().unwrap();
        self.exchange(request.id, &request.line).unwrap();
        let request = session.list_tools().unwrap();
        listed_tools(&self.exchange(request.id, &request.line).unwrap())
    }

    fn call_tool(&self, name: &str, arguments: &Value) -> Result<String, String> {
        let request = self.session.lock().unwrap().call_tool(name, arguments).unwrap();
        self.exchange(request.id, &request.line).map(|v| tool_output(&v))
    }
}

struct LoopbackProxy {
    agent: McpAgent,
    provider: Loopback,
}

impl Agent for LoopbackProxy {
    fn process(&self, input: &str) -> String {
        match self.agent.plan(input) {
            McpStep::Reply(text) => text,
            McpStep::Call(call) => {
                let outcome = self.provider.call_tool(&call.tool_name, &call.arguments);
                self.agent.report(&call.tool_name, &outcome)
            }
        }
    }

    fn category(&self) -> AgentCategory {
        self.agent.category()
    }
}

#[test]
fn test_a2a_loopback_delegation() {
    let mut orchestrator = Orchestrator::new();

    orchestrator.register(Box::new(DelegatorAgent));

    let provider = Loopback::new();
    let tools = provider.list_tools();
    let llm: Box<dyn Llm> = Box::new(DecisionLlm);
    let mcp_agent = McpAgent::new(Arc::new(llm), "loopback", tools);
    orchestrator.register(Box::new(LoopbackProxy { agent: mcp_agent, provider }));

    let response = orchestrator.dispatch(AgentCategory::new("casual"), "Do the thing");

    assert!(response.contains("[OBSERVATION from loopback]"));
    assert!(response.contains("Tool 'system_diagnostic' on loopback executed successfully"));
    assert!(response.contains("load average") || response.contains(":"));
    assert_eq!(
        response,
        "Success! Do the thing\n\n[OBSERVATION from loopback]\n✅ Tool 'system_diagnostic' on loopback executed successfully:\n\n 10:00:00 up 3 days, load average: 0.10\n"
    );
}
