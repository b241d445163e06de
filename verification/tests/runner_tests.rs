use rust_agent::agent::{AgentContext, AgentEvent, ChatMessage, ChatRequest, MessageContent, MockConfig, MockStore};
use rust_agent::provider::ModelProvider;
use rust_agent::runner::{
    failure_events, prepare_chat, run_local, AgentRunner, RunnerAction, Stage, StageInput,
    StageOutput, TraditionalGraph, STAGE_COUNT,
};
use rust_agent::schema::{
    AnalysisOutput, AppGenOutput, AssembleOutput, AssembleStats, CapabilityOutput,
    ComponentGenOutput, ComponentOutput, DependencyOutput, FileKind, FileNode, GeneratedBy,
    HooksOutput, IntentOutput, IntentType, LayoutOutput, LayoutPattern, MockDataOutput,
    PageGenOutput, PostProcessOutput, ServiceOutput, StructureOutput, StyleGenOutput,
    TypeOutput, UiOutput, UtilsOutput, VisualStyle,
};
use rust_agent::str_map::StrMap;
use rust_agent::structured::parse_structured_content;

const ALL_NODES: [&str; 19] = [
    "analysisNode", "intentNode", "capabilityNode", "uiNode", "componentNode", "structureNode",
    "dependencyNode", "typeNode", "utilsNode", "mockDataNode", "serviceNode", "hooksNode",
    "componentGenNode", "pageGenNode", "layoutNode", "styleGenNode", "appGenNode",
    "assembleNode", "postProcessNode",
];

fn switches(keys: &[&str]) -> MockConfig {
    let mut entries = StrMap::new();
    for k in keys {
        entries.insert(k.to_string(), Some(true));
    }
    MockConfig { entries }
}

fn context(mock: Option<MockConfig>) -> AgentContext {
    AgentContext {
        project_id: Some("project-1".to_string()),
        mock_config: mock,
        user_request: "build a todo app".to_string(),
    }
}

fn mock_analysis() -> AnalysisOutput {
    AnalysisOutput {
        app_type: "todo".to_string(),
        summary: "Mock todo app analysis".to_string(),
        features: vec!["create todos".to_string()],
        pages: vec!["home".to_string()],
        components: vec!["TodoList".to_string()],
    }
}

fn one_file(path: &str, content: &str) -> StrMap<String> {
    let mut m = StrMap::new();
    m.insert(path.to_string(), content.to_string());
    m
}

fn sample_output(stage: Stage) -> StageOutput {
    match stage {
        Stage::Analysis => StageOutput::Analysis(mock_analysis()),
        Stage::Intent => StageOutput::Intent(IntentOutput {
            intent_type: IntentType::Create,
            goal: "Create a todo app".to_string(),
            constraints: vec![],
            user_stories: vec![],
        }),
        Stage::Capability => StageOutput::Capability(CapabilityOutput { capabilities: vec![] }),
        Stage::Ui => StageOutput::Ui(UiOutput {
            layout_pattern: LayoutPattern::SinglePage,
            visual_style: VisualStyle::Minimal,
            primary_sections: vec![],
            interactions: vec![],
            responsive_notes: vec![],
        }),
        Stage::Component => StageOutput::Component(ComponentOutput { components: vec![] }),
        Stage::Structure => StageOutput::Structure(StructureOutput {
            files: vec![FileNode {
                path: "/lib/utils.ts".to_string(),
                kind: FileKind::New,
                description: "Shared utilities".to_string(),
                source_correlation: None,
                generated_by: GeneratedBy::Scaffold,
            }],
        }),
        Stage::Dependency => StageOutput::Dependency(DependencyOutput { dependencies: StrMap::new() }),
        Stage::Type => StageOutput::Type(TypeOutput { files: vec![] }),
        Stage::Utils => StageOutput::Utils(UtilsOutput { files: vec![] }),
        Stage::MockData => StageOutput::MockData(MockDataOutput { files: vec![] }),
        Stage::Service => StageOutput::Service(ServiceOutput { files: vec![] }),
        Stage::Hooks => StageOutput::Hooks(HooksOutput { files: vec![] }),
        Stage::ComponentGen => StageOutput::ComponentGen(ComponentGenOutput { files: vec![] }),
        Stage::PageGen => StageOutput::PageGen(PageGenOutput { files: vec![] }),
        Stage::Layout => StageOutput::Layout(LayoutOutput { layouts_code: vec![], route_structure: StrMap::new() }),
        Stage::StyleGen => StageOutput::StyleGen(StyleGenOutput { files: vec![] }),
        Stage::AppGen => StageOutput::AppGen(AppGenOutput {
            path: "/App.tsx".to_string(),
            content: "export default function App() {}".to_string(),
            description: "App".to_string(),
        }),
        Stage::Assemble => StageOutput::Assemble(AssembleOutput {
            files: one_file("/App.tsx", "```tsx\nexport default function App() {}\n```"),
            stats: AssembleStats { total_files: 1, categories: StrMap::new() },
        }),
        Stage::PostProcess => StageOutput::PostProcess(PostProcessOutput {
            files: one_file("/App.tsx", "export default function App() {}"),
            total_fixes: 1,
        }),
    }
}

#[test]
fn returns_error_and_done_when_analysis_fails() {
    let runner = AgentRunner::new(());
    let mut run = runner.start(context(None));

    let outcome = match runner.next_action(&run) {
        RunnerAction::Run(StageInput::Analysis(input)) => {
            assert_eq!(input.user_request, "build a todo app");
            parse_structured_content("not json").map(|_| sample_output(Stage::Analysis))
        }
        other => panic!("unexpected action: {:?}", other),
    };
    run.record(outcome);

    match run.events().as_slice() {
        [AgentEvent::Error(message), AgentEvent::Done] => assert!(!message.is_empty()),
        other => panic!("unexpected events: {other:?}"),
    }
    assert!(run.is_done());
    assert!(matches!(runner.next_action(&run), RunnerAction::Finished));
}

#[test]
fn returns_analysis_error_and_done_when_intent_fails() {
    let runner = AgentRunner::new(());
    let mut run = runner.start(context(Some(switches(&["analysisNode"]))));

    match runner.next_action(&run) {
        RunnerAction::LoadMock { stage, path } => {
            assert_eq!(stage, Stage::Analysis);
            assert_eq!(path, "mock/analysis_result.json");
        }
        other => panic!("unexpected action: {:?}", other),
    }
    run.record(Ok(sample_output(Stage::Analysis)));

    let outcome = match runner.next_action(&run) {
        RunnerAction::Run(StageInput::Intent(input)) => {
            assert_eq!(input.analysis, mock_analysis());
            assert_eq!(input.user_request, "build a todo app");
            parse_structured_content("{ not json").map(|_| sample_output(Stage::Intent))
        }
        other => panic!("unexpected action: {:?}", other),
    };
    run.record(outcome);

    match run.events().as_slice() {
        [AgentEvent::Analysis(output), AgentEvent::Error(message), AgentEvent::Done] => {
            assert_eq!(output.app_type, "todo");
            assert_eq!(output.summary, "Mock todo app analysis");
            assert!(!message.is_empty());
        }
        other => panic!("unexpected events: {:?}", other),
    }
}

fn run_all_mocked(runner: &AgentRunner<()>) -> Vec<AgentEvent> {
    let mut run = runner.start(context(Some(switches(&ALL_NODES))));
    let mut steps = 0;
    loop {
        match runner.next_action(&run) {
            RunnerAction::Finished => break,
            RunnerAction::LoadMock { stage, .. } => run.record(Ok(sample_output(stage))),
            RunnerAction::Run(input) => panic!("every stage should be mocked: {:?}", input.stage()),
        }
        steps += 1;
        assert!(steps <= STAGE_COUNT);
    }
    run.into_events()
}

#[test]
fn runs_full_traditional_pipeline_with_mock_store() {
    let runner = AgentRunner::with_mock_store((), MockStore::new("mock".to_string()));
    let events = run_all_mocked(&runner);

    assert!(events.iter().any(|event| matches!(event, AgentEvent::Analysis(_))));
    assert!(events.iter().any(|event| matches!(event, AgentEvent::Intent(_))));
    assert!(events.iter().any(|event| matches!(event, AgentEvent::Capability(_))));
    assert!(events.iter().any(|event| matches!(event, AgentEvent::PostProcess(_))));

    match events.as_slice() {
        [.., AgentEvent::Files(files), AgentEvent::Done] => {
            assert!(!files.files.is_empty(), "expected non-empty files");
        }
        other => panic!("unexpected trailing events: {other:?}"),
    }
    assert_eq!(events.len(), STAGE_COUNT + 2);
}

#[test]
fn traditional_graph_runs_full_pipeline_with_mock_store() {
    let graph = TraditionalGraph::with_mock_store((), MockStore::new("mock".to_string()));
    let events = run_all_mocked(graph.runner());
    assert!(events.iter().any(|event| matches!(event, AgentEvent::Intent(_))));
    match events.as_slice() {
        [.., AgentEvent::PostProcess(p), AgentEvent::Files(files), AgentEvent::Done] => {
            assert_eq!(files.files.get("/App.tsx"), p.files.get("/App.tsx"));
        }
        other => panic!("unexpected trailing events: {other:?}"),
    }
}

#[test]
fn stage_events_follow_pipeline_order() {
    let runner = AgentRunner::new(());
    let events = run_all_mocked(&runner);
    assert!(matches!(events[0], AgentEvent::Analysis(_)));
    assert!(matches!(events[5], AgentEvent::Structure(_)));
    assert!(matches!(events[8], AgentEvent::Utils(_)));
    assert!(matches!(events[17], AgentEvent::Assemble(_)));
    assert!(matches!(events[18], AgentEvent::PostProcess(_)));
    assert_eq!(events.iter().filter(|e| matches!(e, AgentEvent::Done)).count(), 1);
}

#[test]
fn unmocked_utils_stage_runs_without_model() {
    let runner = AgentRunner::new(());
    let keys: Vec<&str> = ALL_NODES.iter().copied().filter(|k| *k != "utilsNode").collect();
    let mut run = runner.start(context(Some(switches(&keys))));
    loop {
        match runner.next_action(&run) {
            RunnerAction::Finished => break,
            RunnerAction::LoadMock { stage, .. } => run.record(Ok(sample_output(stage))),
            RunnerAction::Run(input) => {
                assert_eq!(input.stage(), Stage::Utils);
                match input {
                    StageInput::Utils(ref i) => assert_eq!(i.structure.files.len(), 1),
                    _ => unreachable!(),
                }
                let output = run_local(input).expect("utils need no model");
                run.record(Ok(output));
            }
        }
    }
    match &run.events()[8] {
        AgentEvent::Utils(u) => {
            assert_eq!(u.files.len(), 1);
            assert_eq!(u.files[0].path, "/lib/utils.ts");
        }
        other => panic!("unexpected event: {:?}", other),
    }
}

#[test]
fn model_stages_are_handed_back() {
    let runner = AgentRunner::new(());
    let run = runner.start(context(None));
    match runner.next_action(&run) {
        RunnerAction::Run(input) => {
            let back = run_local(input).expect_err("analysis needs the model");
            assert_eq!(back.stage(), Stage::Analysis);
        }
        other => panic!("unexpected action: {:?}", other),
    }
}

#[test]
fn stages_map_to_mock_switches() {
    assert_eq!(Stage::at(0), Stage::Analysis);
    assert_eq!(Stage::at(18), Stage::PostProcess);
    assert_eq!(Stage::Hooks.mock_node().key(), "hooksNode");
    assert_eq!(sample_output(Stage::Layout).stage(), Stage::Layout);
}

fn chat(messages: Vec<ChatMessage>, mock: Option<MockConfig>) -> ChatRequest {
    ChatRequest { messages, project_id: None, mock_config: mock }
}

fn user(text: &str) -> ChatMessage {
    ChatMessage { id: None, role: "user".to_string(), content: MessageContent::Text(text.to_string()), attachments: None }
}

#[test]
fn chat_uses_dev_mock_fallback_when_no_mock_config() {
    let ctx = prepare_chat(&chat(vec![user("build a todo app")], None), ModelProvider::Mock).unwrap();
    let cfg = ctx.mock_config.expect("dev defaults");
    assert_eq!(cfg.entries.get("analysisNode"), Some(&Some(true)));
    assert!(cfg.entries.get("assembleNode").is_none());

    let real = prepare_chat(&chat(vec![user("build a todo app")], None), ModelProvider::DeepSeek).unwrap();
    assert!(real.mock_config.is_none());

    let explicit = prepare_chat(&chat(vec![user("x")], Some(switches(&["uiNode"]))), ModelProvider::Mock).unwrap();
    assert_eq!(explicit.mock_config.unwrap().entries.len(), 1);
}

#[test]
fn chat_without_user_message_answers_error_then_done() {
    let error = prepare_chat(&chat(vec![], None), ModelProvider::Mock).expect_err("no user message");
    let events = failure_events(error.message().to_string());
    match events.as_slice() {
        [AgentEvent::Error(m), AgentEvent::Done] => assert!(m.contains("user message")),
        other => panic!("unexpected events: {:?}", other),
    }
}
