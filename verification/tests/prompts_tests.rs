use rust_agent::llm::LlmRole;
use rust_agent::prompts::{
    analysis_message, component_gen_messages, component_messages, hooks_messages,
    layout_messages, mock_data_messages, plan_messages, single_component_messages, ui_messages,
    ANALYSIS_SYSTEM_PROMPT,
};
use rust_agent::schema::AnalysisInput;

#[test]
fn builds_analysis_messages() {
    let messages = analysis_message(&AnalysisInput::new("Build a todo app".to_string()));
    assert_eq!(messages.len(), 2);
    assert_eq!(messages[0].role, LlmRole::System);
    assert_eq!(messages[0].content, ANALYSIS_SYSTEM_PROMPT);
    assert!(messages[0].content.contains("app_type: string"));
    assert_eq!(messages[1].role, LlmRole::User);
    assert_eq!(messages[1].content, "Analyze this app request: Build a todo app");
}

#[test]
fn builds_component_messages_with_intent_capability_and_ui() {
    let intent = r#"{"intent_type":"CREATE","goal":"Create a todo app","constraints":["Keep UI simple"],"user_stories":["As a user, I can create todos"]}"#;
    let capabilities = r#"{"capabilities":[{"name":"Todo creation","description":"Users can create todo items","priority":"MUST_HAVE"}]}"#;
    let ui = r#"{"layout_pattern":"SINGLE_PAGE","visual_style":"MODERN","primary_sections":["Todo input","Todo list"],"interactions":["Create todo"],"responsive_notes":["Stack sections on mobile"]}"#;
    let messages = component_messages(intent, capabilities, ui);

    assert_eq!(messages.len(), 2);
    assert_eq!(messages[0].role, LlmRole::System);
    assert_eq!(messages[1].role, LlmRole::User);
    assert!(messages[0].content.contains("componentId"));
    assert!(messages[0].content.contains("business-specific"));
    assert!(messages[1].content.contains(r#""goal":"Create a todo app""#));
    assert!(messages[1].content.contains(r#""name":"Todo creation""#));
    assert!(messages[1].content.contains(r#""primary_sections":["Todo input","Todo list"]"#));
    assert_eq!(
        messages[1].content,
        format!("Intent JSON: {}\nCapability JSON: {}\nUI JSON: {}", intent, capabilities, ui)
    );
}

#[test]
fn builds_component_gen_messages() {
    let messages = component_gen_messages(
        r#"{"files":[]}"#,
        r#"{"components":[]}"#,
        r#"{"files":[]}"#,
        r#"{"files":[]}"#,
        r#"{"files":[]}"#,
    );

    assert_eq!(messages.len(), 2);
    assert_eq!(messages[0].role, LlmRole::System);
    assert_eq!(messages[1].role, LlmRole::User);
    assert!(messages[0].content.contains("/components/*.tsx"));
    assert!(messages[0].content.contains("export default"));
    assert!(messages[1].content.contains("Component Specs JSON"));
}

#[test]
fn builds_single_component_messages() {
    let messages = single_component_messages("{\"componentId\":\"A\"}", "T", "H", "S");
    assert!(messages[0].content.contains("Only generate ONE file"));
    assert_eq!(
        messages[1].content,
        "Component spec:\n{\"componentId\":\"A\"}\n\nAvailable types:\nT\n\nAvailable hooks:\nH\n\nAvailable services:\nS"
    );
}

#[test]
fn builds_hooks_messages_with_types_and_service() {
    let messages = hooks_messages(
        r#"{"files":[{"path":"/types/todo.ts","code":"export interface Todo { id: string; title: string; }","model_id":"Todo"}]}"#,
        r#"{"files":[{"path":"/services/todoService.ts","content":"export function getAllTodos() { return []; }","description":"Todo service"}]}"#,
        r#"{"files":[]}"#,
    );

    assert_eq!(messages.len(), 2);
    assert_eq!(messages[0].role, LlmRole::System);
    assert_eq!(messages[1].role, LlmRole::User);
    assert!(messages[0].content.contains("useTodos"));
    assert!(messages[1].content.contains("/services/todoService.ts"));
    assert!(messages[1].content.contains("/types/todo.ts"));
}

#[test]
fn builds_layout_messages() {
    let messages = layout_messages(r#"{"layout_pattern":"MULTI_PAGE"}"#, r#"{"files":[]}"#, r#"{"files":[]}"#);

    assert_eq!(messages.len(), 2);
    assert_eq!(messages[0].role, LlmRole::System);
    assert!(messages[0].content.contains("layoutsCode"));
    assert!(messages[0].content.contains("routeStructure"));
    assert!(messages[1].content.contains("UI JSON"));
}

#[test]
fn builds_mock_data_messages_with_types_and_structure() {
    let messages = mock_data_messages(
        r#"{"files":[{"path":"/types/todo.ts","code":"export interface Todo {}","model_id":"Todo"}]}"#,
        r#"{"files":[{"path":"/data/todos.ts","kind":"NEW","description":"Todo data","generatedBy":"MOCK_DATA"}]}"#,
    );

    assert_eq!(messages.len(), 2);
    assert_eq!(messages[0].role, LlmRole::System);
    assert_eq!(messages[1].role, LlmRole::User);
    assert!(messages[0].content.contains("MOCK_TODOS"));
    assert!(messages[1].content.contains("/types/todo.ts"));
    assert!(messages[1].content.contains("/data/todos.ts"));
}

#[test]
fn builds_ui_messages_with_analysis_intent_and_capabilities() {
    let messages = ui_messages(
        r#"{"app_type":"todo","summary":"A todo app"}"#,
        r#"{"goal":"Create a todo app"}"#,
        r#"{"capabilities":[{"name":"Todo creation"}]}"#,
    );

    assert_eq!(messages.len(), 2);
    assert_eq!(messages[0].role, LlmRole::System);
    assert_eq!(messages[1].role, LlmRole::User);
    assert!(messages[1].content.contains(r#""app_type":"todo""#));
    assert!(messages[1].content.contains(r#""name":"Todo creation""#));
}

#[test]
fn builds_plan_messages() {
    let messages = plan_messages(r#"{"app_type":"todo"}"#);
    assert!(messages[0].content.contains("implementation plan"));
    assert_eq!(
        messages[1].content,
        r#"Create an implementation plan from this analysis JSON: {"app_type":"todo"}"#
    );
}
