use rust_agent::nodes::{
    app_tsx, generate_files, has_component_files, package_json, ComponentGenNode, FilesNode,
    HooksNode, LayoutNode, MockDataNode, PostProcessNode, UtilsNode,
};
use rust_agent::schema::{
    AssembleOutput, AssembleStats, ComponentGenInput, ComponentOutput, FileKind, FileNode,
    FilesInput, GeneratedBy, HooksInput, LayoutInput, LayoutPattern, MockDataInput,
    PageCodeFile, PageGenOutput, PlanOutput, PostProcessInput, ServiceFile, ServiceOutput,
    StructureOutput, TypeFile, TypeOutput, UiOutput, UtilsInput, VisualStyle, HooksOutput,
};
use rust_agent::str_map::StrMap;

fn file(path: &str, kind: FileKind, by: GeneratedBy) -> FileNode {
    FileNode {
        path: path.to_string(),
        kind,
        description: "file".to_string(),
        source_correlation: None,
        generated_by: by,
    }
}

fn ui(pattern: LayoutPattern) -> UiOutput {
    UiOutput {
        layout_pattern: pattern,
        visual_style: VisualStyle::Modern,
        primary_sections: vec!["Todo app".to_string()],
        interactions: Vec::new(),
        responsive_notes: Vec::new(),
    }
}

fn page(path: &str) -> PageCodeFile {
    PageCodeFile { path: path.to_string(), content: "export default function P() {}".to_string(), description: "page".to_string() }
}

fn todo_plan() -> PlanOutput {
    PlanOutput {
        project_name: "Todo App".to_string(),
        description: "A todo management application".to_string(),
        pages: vec![],
        components: vec![],
    }
}

#[test]
fn generates_utils_file_when_structure_contains_lib_utils() {
    let node = UtilsNode::new();

    let output = node.run(UtilsInput::new(StructureOutput {
        files: vec![FileNode {
            path: "/lib/utils.ts".to_string(),
            kind: FileKind::New,
            description: "Shared utilities".to_string(),
            source_correlation: None,
            generated_by: GeneratedBy::Scaffold,
        }],
    }));

    assert_eq!(output.files.len(), 1);
    assert_eq!(output.files[0].path, "/lib/utils.ts");
    assert!(output.files[0].code.contains("export function cn"));
    assert_eq!(output.files[0].description.as_deref(), Some("Shared className merge utility"));
}

#[test]
fn skips_utils_file_when_structure_does_not_need_scaffold() {
    let node = UtilsNode::new();

    let output = node.run(UtilsInput::new(StructureOutput {
        files: vec![FileNode {
            path: "/App.tsx".to_string(),
            kind: FileKind::Overwrite,
            description: "Application entry".to_string(),
            source_correlation: None,
            generated_by: GeneratedBy::AppEntry,
        }],
    }));

    assert!(output.files.is_empty());
}

#[test]
fn utils_file_for_any_scaffold_file() {
    let output = UtilsNode::default().run(UtilsInput::new(StructureOutput {
        files: vec![file("/components/ui/button.tsx", FileKind::Template, GeneratedBy::Scaffold)],
    }));
    assert_eq!(output.files.len(), 1);
}

#[test]
fn detects_planned_component_files() {
    let with = StructureOutput {
        files: vec![
            file("/pages/Home.tsx", FileKind::New, GeneratedBy::Page),
            file("/components/TodoListPanel.tsx", FileKind::New, GeneratedBy::Component),
        ],
    };
    let wrong_dir = StructureOutput { files: vec![file("/pages/TodoListPanel.tsx", FileKind::New, GeneratedBy::Component)] };
    let wrong_ext = StructureOutput { files: vec![file("/components/TodoListPanel.ts", FileKind::New, GeneratedBy::Component)] };
    let wrong_kind = StructureOutput { files: vec![file("/components/TodoListPanel.tsx", FileKind::New, GeneratedBy::Page)] };
    assert!(has_component_files(&with));
    assert!(!has_component_files(&wrong_dir));
    assert!(!has_component_files(&wrong_ext));
    assert!(!has_component_files(&wrong_kind));
}

#[test]
fn skips_when_no_component_files_exist() {
    let input = ComponentGenInput::new(
        StructureOutput { files: Vec::new() },
        ComponentOutput { components: Vec::new() },
        TypeOutput { files: Vec::new() },
        ServiceOutput { files: Vec::new() },
        HooksOutput { files: Vec::new() },
    );
    let output = ComponentGenNode::<()>::skipped_output(&input).expect("component gen node should skip");
    assert!(output.files.is_empty());

    let planned = ComponentGenInput::new(
        StructureOutput { files: vec![file("/components/TodoListPanel.tsx", FileKind::New, GeneratedBy::Component)] },
        ComponentOutput { components: Vec::new() },
        TypeOutput { files: Vec::new() },
        ServiceOutput { files: Vec::new() },
        HooksOutput { files: Vec::new() },
    );
    assert!(ComponentGenNode::<()>::skipped_output(&planned).is_none());
}

#[test]
fn skips_when_no_service_exists() {
    let input = HooksInput::new(
        TypeOutput { files: Vec::new() },
        ServiceOutput { files: Vec::new() },
        StructureOutput { files: Vec::new() },
    );
    let output = HooksNode::<()>::skipped_output(&input).expect("hooks node should skip");
    assert!(output.files.is_empty());

    let with_service = HooksInput::new(
        TypeOutput { files: Vec::new() },
        ServiceOutput {
            files: vec![ServiceFile {
                path: "/services/todoService.ts".to_string(),
                content: "export function getAllTodos() { return []; }".to_string(),
                description: "Todo service".to_string(),
            }],
        },
        StructureOutput { files: Vec::new() },
    );
    assert!(HooksNode::<()>::skipped_output(&with_service).is_none());
}

#[test]
fn returns_empty_files_when_no_types_exist() {
    let input = MockDataInput::new(TypeOutput { files: Vec::new() }, StructureOutput { files: Vec::new() });
    assert!(MockDataNode::<()>::skipped_output(&input).expect("should skip").files.is_empty());
    let typed = MockDataInput::new(
        TypeOutput {
            files: vec![TypeFile {
                path: "/types/todo.ts".to_string(),
                code: "export interface Todo { id: string }".to_string(),
                model_id: "Todo".to_string(),
            }],
        },
        StructureOutput { files: Vec::new() },
    );
    assert!(MockDataNode::<()>::skipped_output(&typed).is_none());
}

#[test]
fn returns_empty_layouts_for_single_page_app() {
    let input = LayoutInput::new(
        ui(LayoutPattern::SinglePage),
        StructureOutput { files: Vec::new() },
        PageGenOutput { files: vec![page("/pages/Home.tsx"), page("/pages/About.tsx")] },
    );
    let output = LayoutNode::<()>::skipped_output(&input).expect("single page should skip");
    assert!(output.layouts_code.is_empty());
    assert!(output.route_structure.is_empty());
}

#[test]
fn layout_needs_model_for_several_pages() {
    let one_page = LayoutInput::new(
        ui(LayoutPattern::Dashboard),
        StructureOutput { files: Vec::new() },
        PageGenOutput { files: vec![page("/pages/Home.tsx")] },
    );
    assert!(LayoutNode::<()>::skipped_output(&one_page).is_some());
    let many = LayoutInput::new(
        ui(LayoutPattern::MultiPage),
        StructureOutput { files: Vec::new() },
        PageGenOutput { files: vec![page("/pages/Home.tsx"), page("/pages/About.tsx")] },
    );
    assert!(LayoutNode::<()>::skipped_output(&many).is_none());
}

#[test]
fn post_processes_assembled_files() {
    let node = PostProcessNode::new();
    let mut files = StrMap::new();
    files.insert("/App.tsx".to_string(), "```tsx\nexport default function App() {}\n```".to_string());

    let output = node.run(PostProcessInput::new(AssembleOutput {
        files,
        stats: AssembleStats { total_files: 1, categories: StrMap::new() },
    }));

    assert_eq!(output.files.get("/App.tsx"), Some(&"export default function App() {}".to_string()));
    assert!(output.total_fixes >= 1);
}

#[test]
fn post_processing_counts_only_changed_files() {
    let mut files = StrMap::new();
    files.insert("/a.ts".to_string(), "```ts\nexport const a = 1;\n```".to_string());
    files.insert("/b.ts".to_string(), "export const b = 2;".to_string());
    let output = PostProcessNode::default().run(PostProcessInput::new(AssembleOutput {
        files,
        stats: AssembleStats { total_files: 2, categories: StrMap::new() },
    }));
    assert_eq!(output.total_fixes, 1);
    assert_eq!(output.files.len(), 2);
    assert_eq!(output.files.get("/a.ts"), Some(&"export const a = 1;".to_string()));
    assert_eq!(output.files.get("/b.ts"), Some(&"export const b = 2;".to_string()));
}

#[test]
fn generates_minimum_sandpack_files() {
    let output = FilesNode::new().run(FilesInput::new(todo_plan()));

    assert!(output.files.contains_key("package.json"));
    assert!(output.files.contains_key("src/App.tsx"));
    assert!(output.files.contains_key("src/main.tsx"));
    assert!(output.files.contains_key("src/styles.css"));
    assert!(output.files.get("src/App.tsx").unwrap().contains("Todo App"));
    assert_eq!(output.files.len(), 4);
}

#[test]
fn generates_valid_package_json() {
    let value: serde_json::Value = serde_json::from_str(&package_json("Todo App"))
        .expect("package.json should be valid JSON");

    assert_eq!(value["name"], "todo-app");
    assert_eq!(value["scripts"]["dev"], "vite");
    assert_eq!(value["dependencies"]["react"], "latest");
}

#[test]
fn generates_pretty_package_json() {
    let package_json = package_json("Todo App");

    assert!(package_json.contains("\n  \"scripts\""));
    assert!(package_json.contains("\n  \"name\": \"todo-app\""));
}

#[test]
fn files_node_outputs_valid_package_json() {
    let output = generate_files(&todo_plan());
    let package_json = output.files.get("package.json").expect("package.json should exist");
    let value: serde_json::Value = serde_json::from_str(package_json)
        .expect("files node package.json should be valid JSON");
    assert_eq!(value["name"], "todo-app");
}

#[test]
fn package_name_replaces_unsafe_characters() {
    let value: serde_json::Value = serde_json::from_str(&package_json("My \"Best\" App_2"))
        .expect("package.json should stay valid JSON");
    assert_eq!(value["name"], "my--best--app_2");
}

#[test]
fn app_component_shows_name_and_description() {
    let code = app_tsx("Todo App", "Tracks todos");
    assert!(code.contains("<h1>Todo App</h1>"));
    assert!(code.contains("<p>Tracks todos</p>"));
}
