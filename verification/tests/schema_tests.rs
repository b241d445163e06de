use rust_agent::schema::{
    AnalysisInput, AnalysisOutput, CapabilityInput, CapabilityItem, CapabilityOutput,
    CapabilityPriority, ComponentEvent, ComponentEventParameter, ComponentInput,
    ComponentOutput, ComponentProp, ComponentSpec, IntentOutput, IntentType, LayoutPattern,
    StructureInput, UiOutput, VisualStyle,
};

fn todo_analysis() -> AnalysisOutput {
    AnalysisOutput {
        app_type: "todo".to_string(),
        summary: "A todo app".to_string(),
        features: vec!["create todos".to_string()],
        pages: vec!["home".to_string()],
        components: vec!["TodoList".to_string()],
    }
}

#[test]
fn builds_capability_input() {
    let input = CapabilityInput::new(
        todo_analysis(),
        IntentOutput {
            intent_type: IntentType::Create,
            goal: "Create a todo app".to_string(),
            constraints: vec!["Use React".to_string()],
            user_stories: vec!["As a user, I can create todos".to_string()],
        },
    );

    assert_eq!(input.analysis.app_type, "todo");
    assert_eq!(input.intent.goal, "Create a todo app");
}

#[test]
fn builds_component_input() {
    let input = ComponentInput::new(
        IntentOutput {
            intent_type: IntentType::Create,
            goal: "Create a todo app".to_string(),
            constraints: vec!["Keep UI simple".to_string()],
            user_stories: vec!["As a user, I can create todos".to_string()],
        },
        CapabilityOutput {
            capabilities: vec![CapabilityItem {
                name: "Todo creation".to_string(),
                description: "Users can create todo items".to_string(),
                priority: CapabilityPriority::MustHave,
            }],
        },
        UiOutput {
            layout_pattern: LayoutPattern::SinglePage,
            visual_style: VisualStyle::Modern,
            primary_sections: vec!["Todo input".to_string(), "Todo list".to_string()],
            interactions: vec!["Create todo".to_string()],
            responsive_notes: vec!["Stack sections on mobile".to_string()],
        },
    );

    assert_eq!(input.intent.goal, "Create a todo app");
    assert_eq!(input.capabilities.capabilities.len(), 1);
    assert_eq!(input.ui.layout_pattern, LayoutPattern::SinglePage);
}

#[test]
fn builds_structure_input() {
    let input = StructureInput::new(
        UiOutput {
            layout_pattern: LayoutPattern::SinglePage,
            visual_style: VisualStyle::Modern,
            primary_sections: vec!["Todo input".to_string(), "Todo list".to_string()],
            interactions: vec!["Create todo".to_string()],
            responsive_notes: vec!["Stack content on mobile".to_string()],
        },
        ComponentOutput {
            components: vec![ComponentSpec {
                component_id: "TodoInputForm".to_string(),
                original_id: "Todo input".to_string(),
                component_type: "Form".to_string(),
                description: "Create todos".to_string(),
                props: vec![ComponentProp {
                    name: "placeholder".to_string(),
                    prop_type: "string".to_string(),
                    description: "Input placeholder".to_string(),
                    required: false,
                }],
                events: vec![ComponentEvent {
                    name: "onCreateTodo".to_string(),
                    description: "Create todo".to_string(),
                    parameters: vec![ComponentEventParameter {
                        name: "title".to_string(),
                        parameter_type: "string".to_string(),
                    }],
                }],
                data_dependencies: vec!["Todo".to_string()],
                shadcn_component: Some("Form".to_string()),
            }],
        },
        CapabilityOutput {
            capabilities: vec![CapabilityItem {
                name: "Todo creation".to_string(),
                description: "Users can create todos".to_string(),
                priority: CapabilityPriority::MustHave,
            }],
        },
    );

    assert_eq!(input.components.components.len(), 1);
    assert_eq!(input.ui.layout_pattern, LayoutPattern::SinglePage);
    assert_eq!(input.capabilities.capabilities[0].name, "Todo creation");
}

#[test]
fn builds_analysis_input() {
    let input = AnalysisInput::new("Build a todo app".to_string());
    assert_eq!(input.user_request, "Build a todo app");
}
