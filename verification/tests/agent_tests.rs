use rust_agent::agent::{
    chat_request_to_llm_messages, AgentContext, AgentEvent, ChatMessage, ChatRequest,
    MessageContent, MockConfig, MockNode, MockStore, RouteAdapter, RouteFlow, RouteRegistry,
    RouteType, TraditionalFlowState,
};
use rust_agent::llm::LlmRole;
use rust_agent::schema::{AssembleOutput, AssembleStats, FilesOutput, PostProcessOutput};
use rust_agent::str_map::StrMap;

fn message(id: &str, role: &str, text: &str) -> ChatMessage {
    ChatMessage {
        id: Some(id.to_string()),
        role: role.to_string(),
        content: MessageContent::Text(text.to_string()),
        attachments: None,
    }
}

fn switches(pairs: &[(&str, Option<bool>)]) -> MockConfig {
    let mut entries = StrMap::new();
    for (k, v) in pairs {
        entries.insert(k.to_string(), *v);
    }
    MockConfig { entries }
}

fn files(pairs: &[(&str, &str)]) -> StrMap<String> {
    StrMap::from_pairs(pairs.iter().map(|(k, v)| (k.to_string(), v.to_string())).collect())
}

#[test]
fn resolves_prompt_route() {
    let registry = RouteRegistry::new();
    let request = ChatRequest {
        messages: vec![message("1", "user", "build a dashboard")],
        project_id: None,
        mock_config: None,
    };

    let result = registry.resolve(&request).expect("route should resolve");

    assert_eq!(result.flow, RouteFlow::Traditional);
    assert_eq!(result.route_type, RouteType::Prompt);
    assert_eq!(result.context.user_request, "build a dashboard");
}

#[test]
fn fallback_returns_error_when_context_cannot_build() {
    let registry = RouteRegistry::new();
    let request = ChatRequest { messages: vec![], project_id: None, mock_config: None };

    let error = registry.resolve(&request).expect_err("empty request should fail");

    assert!(error.message().contains("user message"));
}

#[test]
fn prompt_adapter_takes_only_requests_with_user_text() {
    let adapter = RouteAdapter::Prompt;
    let with_text = ChatRequest {
        messages: vec![message("1", "user", "  build a blog  ")],
        project_id: None,
        mock_config: None,
    };
    let blank = ChatRequest {
        messages: vec![message("1", "user", "   ")],
        project_id: None,
        mock_config: None,
    };
    assert_eq!(adapter.priority(), 10);
    assert!(adapter.can_handle(&with_text));
    assert!(!adapter.can_handle(&blank));
    assert!(adapter.adapt(&blank).is_err());
    assert_eq!(adapter.adapt(&with_text).unwrap().context.user_request, "build a blog");
}

#[test]
fn builds_context_from_last_user_message() {
    let request = ChatRequest {
        messages: vec![
            message("1", "user", "first request"),
            message("2", "assistant", "assistant question"),
            message("3", "user", "build a todo app"),
        ],
        project_id: Some("project-1".to_string()),
        mock_config: Some(switches(&[("analysisNode", Some(true))])),
    };

    let context = AgentContext::from_chat_request(&request).expect("context should work");

    assert_eq!(context.project_id.as_deref(), Some("project-1"));
    assert_eq!(context.user_request, "build a todo app");
    let cfg = context.mock_config.expect("mock config should be kept");
    assert_eq!(cfg.entries.len(), 1);
    assert_eq!(cfg.entries.get("analysisNode"), Some(&Some(true)));
}

#[test]
fn rejects_request_without_user_message() {
    let request = ChatRequest {
        messages: vec![message("1", "assistant", "hello")],
        project_id: None,
        mock_config: None,
    };

    let error = AgentContext::from_chat_request(&request)
        .expect_err("context should reject missing user message");

    assert!(error.message().contains("user message"));
}

#[test]
fn context_ignores_non_text_user_content() {
    let request = ChatRequest {
        messages: vec![
            message("1", "user", "first"),
            ChatMessage {
                id: None,
                role: "user".to_string(),
                content: MessageContent::Other,
                attachments: None,
            },
        ],
        project_id: None,
        mock_config: None,
    };
    assert!(AgentContext::from_chat_request(&request).is_err());
}

#[test]
fn dev_mock_defaults_fills_when_mock_provider_and_no_mock_config() {
    let mut ctx = AgentContext {
        project_id: None,
        mock_config: None,
        user_request: "build a todo app".to_string(),
    };

    ctx.ensure_dev_mock_defaults(true);

    let cfg = ctx.mock_config.expect("mock_config should be filled");
    assert_eq!(cfg.entries.get("analysisNode"), Some(&Some(true)));
    assert_eq!(cfg.entries.get("appGenNode"), Some(&Some(true)));
    assert!(cfg.entries.get("assembleNode").is_none());
    assert!(cfg.entries.get("postProcessNode").is_none());
    assert_eq!(cfg.entries.len(), 17);
}

#[test]
fn dev_mock_defaults_respects_explicit_config() {
    let mut ctx = AgentContext {
        project_id: None,
        mock_config: Some(switches(&[("analysisNode", Some(false))])),
        user_request: "build a todo app".to_string(),
    };

    ctx.ensure_dev_mock_defaults(true);

    assert_eq!(
        ctx.mock_config.as_ref().unwrap().entries.get("analysisNode"),
        Some(&Some(false)),
        "explicit mock_config should not be overwritten"
    );
}

#[test]
fn dev_mock_defaults_noop_when_main_is_real_provider() {
    let mut ctx = AgentContext {
        project_id: None,
        mock_config: None,
        user_request: "build a todo app".to_string(),
    };

    ctx.ensure_dev_mock_defaults(false);

    assert!(ctx.mock_config.is_none(), "real provider should not auto-enable mock defaults");
}

#[test]
fn detects_enabled_node_mock() {
    let config = switches(&[("analysisNode", Some(true)), ("planNode", Some(false))]);

    assert!(MockStore::should_mock(Some(&config), MockNode::Analysis));
    assert!(!MockStore::should_mock(Some(&config), MockNode::Plan));
    assert!(!MockStore::should_mock(Some(&config), MockNode::Files));
}

#[test]
fn does_not_mock_without_config() {
    assert!(!MockStore::should_mock(None, MockNode::Analysis));
}

#[test]
fn detects_enabled_intent_mock() {
    let config = switches(&[("intentNode", Some(true))]);

    assert!(MockStore::should_mock(Some(&config), MockNode::Intent));
}

#[test]
fn switch_that_is_not_a_boolean_does_not_mock() {
    let config = switches(&[("uiNode", None)]);
    assert!(!MockStore::should_mock(Some(&config), MockNode::Ui));
}

#[test]
fn mock_nodes_have_keys_and_files() {
    assert_eq!(MockNode::Analysis.key(), "analysisNode");
    assert_eq!(MockNode::PostProcess.key(), "postProcessNode");
    assert_eq!(MockNode::MockData.file_name(), "mock_data_result.json");
    assert_eq!(MockNode::Plan.file_name(), "plan_result.json");
}

#[test]
fn mock_store_joins_root_and_file_name() {
    assert_eq!(MockStore::new("mock".to_string()).path_for(MockNode::Analysis), "mock/analysis_result.json");
    assert_eq!(MockStore::new("data/".to_string()).path_for(MockNode::Ui), "data/ui_result.json");
    assert_eq!(MockStore::new(String::new()).path_for(MockNode::Intent), "intent_result.json");
    assert_eq!(MockStore::default().path_for(MockNode::Files), "mock/files_result.json");
}

#[test]
fn converts_user_and_assistant_messages() {
    let request = ChatRequest {
        messages: vec![message("1", "user", "hello"), message("2", "assistant", "hi")],
        project_id: Some(String::from("demo")),
        mock_config: None,
    };

    let messages = chat_request_to_llm_messages(&request);
    assert_eq!(messages.len(), 2);
}

#[test]
fn conversion_trims_and_drops_other_messages() {
    let request = ChatRequest {
        messages: vec![
            message("1", "system", "rules"),
            message("2", "user", "  hello  "),
            message("3", "assistant", "   "),
            message("4", "assistant", "hi"),
        ],
        project_id: None,
        mock_config: None,
    };
    let messages = chat_request_to_llm_messages(&request);
    assert_eq!(messages.len(), 2);
    assert_eq!(messages[0].content, "hello");
    assert_eq!(messages[1].content, "hi");
    assert!(messages.iter().all(|m| m.role == LlmRole::User));
}

#[test]
fn returns_post_processed_files_first() {
    let mut state = TraditionalFlowState::new();

    state.post_process = Some(PostProcessOutput {
        files: files(&[("/App.tsx", "export default function App() {}")]),
        total_fixes: 1,
    });

    let files = state.final_files().expect("files should exist");

    assert_eq!(
        files.files.get("/App.tsx"),
        Some(&"export default function App() {}".to_string())
    );
}

#[test]
fn final_files_fall_back_to_assembled_then_planned_files() {
    let mut state = TraditionalFlowState::new();
    assert!(state.final_files().is_none());

    state.files = Some(FilesOutput { files: files(&[("package.json", "{}")]) });
    assert!(state.final_files().unwrap().files.contains_key("package.json"));

    state.assemble = Some(AssembleOutput {
        files: files(&[("/App.tsx", "assembled")]),
        stats: AssembleStats { total_files: 1, categories: StrMap::new() },
    });
    let chosen = state.final_files().unwrap();
    assert_eq!(chosen.files.get("/App.tsx"), Some(&"assembled".to_string()));
    assert!(!chosen.files.contains_key("package.json"));
}

#[test]
fn events_carry_errors() {
    let event = AgentEvent::Error("failed".to_string());
    assert!(matches!(event, AgentEvent::Error(ref m) if m == "failed"));
}
