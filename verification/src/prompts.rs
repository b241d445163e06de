//! The messages that ask a model for each stage's result. The stages' inputs reach
//! these functions already written as JSON text; each function frames that text with
//! the stage's instructions.
use vstd::prelude::*;
use vstd::string::StringExecFns;
use crate::llm::{LlmMessage, LlmRole};
use crate::schema::AnalysisInput;

verus! {

broadcast use vstd::string::group_string_axioms;

/// The role and the text of each message.
pub open spec fn message_texts(msgs: Seq<LlmMessage>) -> Seq<(LlmRole, Seq<char>)> {
    msgs.map_values(|m: LlmMessage| (m.role, m.content@))
}

/// A system message with `system`, then a user message with `user`.
pub open spec fn system_then_user(system: Seq<char>, user: Seq<char>) -> Seq<(LlmRole, Seq<char>)> {
    seq![(LlmRole::System, system), (LlmRole::User, user)]
}

/// The two messages of a prompt.
fn two_messages(system: &str, user: String) -> (r: Vec<LlmMessage>)
    ensures
        message_texts(r@) == system_then_user(system@, user@),
{
    let r = vec![LlmMessage::system(system), LlmMessage { role: LlmRole::User, content: user }];
    assert(message_texts(r@) =~= system_then_user(system@, user@));
    r
}

/// The instructions of the analysis stage.
pub const ANALYSIS_SYSTEM_PROMPT: &'static str = r#"You are an app generation requirement analyst.
Return only valid JSON with these fields:
app_type: string
summary: string
features: string[]
pages: string[]
components: string[]"#;

/// The instructions of the planning stage.
pub const PLAN_SYSTEM_PROMPT: &'static str = r#"You are a frontend application planner.
Based on the analysis JSON, create a concise implementation plan.
Return only valid JSON with these fields:
project_name: string
description: string
pages: [{ name: string, route: string, purpose: string }]
components: [{ name: string, purpose: string }]"#;

/// The instructions of the UI planning stage.
pub const UI_SYSTEM_PROMPT: &'static str = r#"You are a frontend UI planning expert.
Based on the analysis, intent, and capability JSON, describe the UI strategy.
Return only valid JSON with these fields:
layout_pattern: SINGLE_PAGE | DASHBOARD | SPLIT_PANE | MULTI_PAGE
visual_style: MINIMAL | MODERN | PLAYFUL | PROFESSIONAL
primary_sections: string[]
interactions: string[]
responsive_notes: string[]"#;

/// The instructions of the component specification stage.
pub const COMPONENT_SYSTEM_PROMPT: &'static str = r#"You are a senior frontend architect.

Your task is to convert UI planning, product intent, and capabilities into business component specifications.

Return only valid JSON. Do not include markdown.

Output JSON shape:
{
  "components": [
    {
      "componentId": "TodoInputForm",
      "originalId": "Todo input",
      "componentType": "Form",
      "description": "Create new todo items",
      "props": [
        {
          "name": "todos",
          "propType": "Todo[]",
          "description": "Todo list data",
          "required": true
        }
      ],
      "events": [
        {
          "name": "onCreateTodo",
          "description": "Triggered when user creates a todo",
          "parameters": [
            {
              "name": "title",
              "parameterType": "string"
            }
          ]
        }
      ],
      "dataDependencies": ["Todo"],
      "shadcnComponent": "Form"
    }
  ]
}

Rules:
1. componentId must be PascalCase and business-specific.
2. Do not use generic names like Table, Form, Button, Card, List, Panel.
3. Prefer names like TodoListPanel, TodoInputForm, UserProfileCard.
4. prop names must be camelCase.
5. event names must start with on, such as onCreateTodo or onSelectTodo.
6. propType and parameterType must be TypeScript type strings.
7. dataDependencies should list business entity names used by the component.
8. shadcnComponent can be null if there is no obvious mapping.
9. Only include business components, not atomic UI components."#;

/// The instructions of the mock data stage.
pub const MOCK_DATA_SYSTEM_PROMPT: &'static str = r#"You are a TypeScript mock data generator.

Your task is to generate realistic mock data files for a React + TypeScript Sandpack project.

Return only valid JSON. Do not include markdown.

Output JSON shape:
{
  "files": [
    {
      "path": "/data/todos.ts",
      "content": "import type { Todo } from '../types/todo';\n\nexport const MOCK_TODOS: Todo[] = [...];\n",
      "description": "Todo mock data"
    }
  ]
}

Rules:
1. Generate mock data files for every type model.
2. Prefer planned /data/*.ts paths from structure when available.
3. If no planned data path exists, use /data/{lowercaseModel}s.ts.
4. Import types from ../types/{file}.
5. Export constants with uppercase names, such as MOCK_TODOS.
6. Include 3 to 5 realistic mock records.
7. Do not include helper functions.
8. Do not include React code.
9. Use TypeScript only.
10. Keep content valid and directly usable."#;

/// The instructions of the hooks stage.
pub const HOOKS_SYSTEM_PROMPT: &'static str = r#"You are a senior React hooks engineer.

Your task is to generate custom React hooks for a React + TypeScript Sandpack project.

Return only valid JSON. Do not include markdown.

Output JSON shape:
{
  "files": [
    {
      "path": "/hooks/useTodos.ts",
      "content": "import { useMemo, useState } from 'react';\nimport type { Todo } from '../types/todo';\nimport { getAllTodos } from '../services/todoService';\n\nexport function useTodos() {\n  const [todos, setTodos] = useState<Todo[]>(() => getAllTodos());\n  return { todos, setTodos };\n}\n",
      "description": "Todo state hook"
    }
  ]
}

Rules:
1. Generate one hook per domain model when possible.
2. Hook files should live in /hooks.
3. Hook names must start with use.
4. Use service functions as the data source.
5. Use React useState/useMemo when useful.
6. Do not fetch from real network APIs.
7. Do not import mock data directly when a service exists.
8. Use relative imports from hook file location.
9. Return plain objects from hooks.
10. Keep hooks simple and preview-friendly.
11. Use TypeScript only.
12. Do not include comments."#;

/// The instructions for generating one component file.
pub const SINGLE_COMPONENT_SYSTEM_PROMPT: &'static str = r#"You are a senior React + TypeScript component engineer.

Generate a single React component file from the given specification.

Return only valid JSON matching this shape (no markdown fences):
{
  "path": "/components/ComponentName.tsx",
  "content": "...tsx source...",
  "description": "one-line description"
}

Rules:
1. Export default a React component.
2. Use TypeScript + TSX + Tailwind classes.
3. Import types from /types when needed (relative path).
4. Prefer hooks from /hooks.
5. Only generate ONE file for the specified component."#;

/// The instructions of the component code stage.
pub const COMPONENT_GEN_SYSTEM_PROMPT: &'static str = r#"You are a senior React + TypeScript component engineer.

Your task is to generate real React component files from component specifications.

Return only valid JSON. Do not include markdown.

Output JSON shape:
{
  "files": [
    {
      "path": "/components/TodoListPanel.tsx",
      "content": "import React from 'react';\n\nexport default function TodoListPanel() {\n  return <div />;\n}\n",
      "description": "Todo list component"
    }
  ]
}

Rules:
1. Generate files only for planned /components/*.tsx files.
2. Every file must export default a React component.
3. Use TypeScript and TSX.
4. Use Tailwind CSS classes.
5. Prefer hooks from /hooks for data.
6. Use service functions only as fallback.
7. Import types from /types when needed.
8. Use relative imports from the component file location.
9. Do not import mock data directly.
10. Do not include comments.
11. Do not use browser-only APIs during render.
12. Keep components simple and preview-friendly.
13. Empty states should be handled gracefully.
14. Event props should be optional when possible.
15. Do not generate page files in this node."#;

/// The instructions of the layout stage.
pub const LAYOUT_SYSTEM_PROMPT: &'static str = r#"You are a senior React layout architect.

Your task is to generate reusable layout components for a React + TypeScript Sandpack project.

Return only valid JSON. Do not include markdown.

Output JSON shape:
{
  "layoutsCode": [
    {
      "path": "/layouts/MainLayout.tsx",
      "content": "import React from 'react';\nimport { Outlet } from 'react-router-dom';\n\nexport default function MainLayout() {\n  return <main><Outlet /></main>;\n}\n",
      "description": "Main layout",
      "pages": ["Home"]
    }
  ],
  "routeStructure": {
    "MainLayout": ["Home"]
  }
}

Rules:
1. Generate layout files only when multiple pages share structure.
2. Layout files should live in /layouts.
3. Every layout must export default a React component.
4. Prefer children prop for simple Sandpack apps.
5. Use Outlet only if routing is clearly planned.
6. Use Tailwind CSS classes.
7. Keep layouts simple.
8. Do not generate page code here.
9. Do not generate component business logic here.
10. For single page apps, returning empty layoutsCode is allowed."#;

/// The messages that ask for the analysis of the user's request.
pub fn analysis_message(input: &AnalysisInput) -> (r: Vec<LlmMessage>)
    ensures
        message_texts(r@) == system_then_user(
            ANALYSIS_SYSTEM_PROMPT@,
            "Analyze this app request: "@ + input.user_request@,
        ),
{
    let mut user = String::from_str("Analyze this app request: ");
    user.append(input.user_request.as_str());
    two_messages(ANALYSIS_SYSTEM_PROMPT, user)
}

/// The messages that ask for an implementation plan, given the analysis as JSON text.
pub fn plan_messages(analysis_json: &str) -> (r: Vec<LlmMessage>)
    ensures
        message_texts(r@) == system_then_user(
            PLAN_SYSTEM_PROMPT@,
            "Create an implementation plan from this analysis JSON: "@ + analysis_json@,
        ),
{
    let mut user = String::from_str("Create an implementation plan from this analysis JSON: ");
    user.append(analysis_json);
    two_messages(PLAN_SYSTEM_PROMPT, user)
}

/// The messages that ask for the UI strategy, given the analysis, the intent and the capabilities as JSON text.
pub fn ui_messages(analysis_json: &str, intent_json: &str, capability_json: &str) -> (r: Vec<LlmMessage>)
    ensures
        message_texts(r@) == system_then_user(
            UI_SYSTEM_PROMPT@,
            "Analysis JSON: "@ + analysis_json@ + "\nIntent JSON: "@ + intent_json@ + "\nCapability JSON: "@ + capability_json@,
        ),
{
    let mut user = String::from_str("Analysis JSON: ");
    user.append(analysis_json);
    user.append("\nIntent JSON: ");
    user.append(intent_json);
    user.append("\nCapability JSON: ");
    user.append(capability_json);
    two_messages(UI_SYSTEM_PROMPT, user)
}

/// The messages that ask for the business component specifications, given the intent, the capabilities and the UI plan as JSON text.
pub fn component_messages(intent_json: &str, capability_json: &str, ui_json: &str) -> (r: Vec<LlmMessage>)
    ensures
        message_texts(r@) == system_then_user(
            COMPONENT_SYSTEM_PROMPT@,
            "Intent JSON: "@ + intent_json@ + "\nCapability JSON: "@ + capability_json@ + "\nUI JSON: "@ + ui_json@,
        ),
{
    let mut user = String::from_str("Intent JSON: ");
    user.append(intent_json);
    user.append("\nCapability JSON: ");
    user.append(capability_json);
    user.append("\nUI JSON: ");
    user.append(ui_json);
    two_messages(COMPONENT_SYSTEM_PROMPT, user)
}

/// The messages that ask for mock data files, given the types and the structure as JSON text.
pub fn mock_data_messages(types_json: &str, structure_json: &str) -> (r: Vec<LlmMessage>)
    ensures
        message_texts(r@) == system_then_user(
            MOCK_DATA_SYSTEM_PROMPT@,
            "Type JSON: "@ + types_json@ + "\nStructure JSON: "@ + structure_json@,
        ),
{
    let mut user = String::from_str("Type JSON: ");
    user.append(types_json);
    user.append("\nStructure JSON: ");
    user.append(structure_json);
    two_messages(MOCK_DATA_SYSTEM_PROMPT, user)
}

/// The messages that ask for the hook files, given the types, the services and the structure as JSON text.
pub fn hooks_messages(types_json: &str, service_json: &str, structure_json: &str) -> (r: Vec<LlmMessage>)
    ensures
        message_texts(r@) == system_then_user(
            HOOKS_SYSTEM_PROMPT@,
            "Types JSON: "@ + types_json@ + "\nService JSON: "@ + service_json@ + "\nStructure JSON: "@ + structure_json@,
        ),
{
    let mut user = String::from_str("Types JSON: ");
    user.append(types_json);
    user.append("\nService JSON: ");
    user.append(service_json);
    user.append("\nStructure JSON: ");
    user.append(structure_json);
    two_messages(HOOKS_SYSTEM_PROMPT, user)
}

/// The messages that ask for one component file, given its specification, the types, the hooks and the services as JSON text.
pub fn single_component_messages(spec_json: &str, types_json: &str, hooks_json: &str, service_json: &str) -> (r: Vec<LlmMessage>)
    ensures
        message_texts(r@) == system_then_user(
            SINGLE_COMPONENT_SYSTEM_PROMPT@,
            "Component spec:\n"@ + spec_json@ + "\n\nAvailable types:\n"@ + types_json@ + "\n\nAvailable hooks:\n"@ + hooks_json@ + "\n\nAvailable services:\n"@ + service_json@,
        ),
{
    let mut user = String::from_str("Component spec:\n");
    user.append(spec_json);
    user.append("\n\nAvailable types:\n");
    user.append(types_json);
    user.append("\n\nAvailable hooks:\n");
    user.append(hooks_json);
    user.append("\n\nAvailable services:\n");
    user.append(service_json);
    two_messages(SINGLE_COMPONENT_SYSTEM_PROMPT, user)
}

/// The messages that ask for the component files, given the structure, the component specifications, the types, the services and the hooks as JSON text.
pub fn component_gen_messages(structure_json: &str, components_json: &str, types_json: &str, service_json: &str, hooks_json: &str) -> (r: Vec<LlmMessage>)
    ensures
        message_texts(r@) == system_then_user(
            COMPONENT_GEN_SYSTEM_PROMPT@,
            "Structure JSON: "@ + structure_json@ + "\nComponent Specs JSON: "@ + components_json@ + "\nTypes JSON: "@ + types_json@ + "\nService JSON: "@ + service_json@ + "\nHooks JSON: "@ + hooks_json@,
        ),
{
    let mut user = String::from_str("Structure JSON: ");
    user.append(structure_json);
    user.append("\nComponent Specs JSON: ");
    user.append(components_json);
    user.append("\nTypes JSON: ");
    user.append(types_json);
    user.append("\nService JSON: ");
    user.append(service_json);
    user.append("\nHooks JSON: ");
    user.append(hooks_json);
    two_messages(COMPONENT_GEN_SYSTEM_PROMPT, user)
}

/// The messages that ask for the layout components, given the UI plan, the structure and the pages as JSON text.
pub fn layout_messages(ui_json: &str, structure_json: &str, pages_json: &str) -> (r: Vec<LlmMessage>)
    ensures
        message_texts(r@) == system_then_user(
            LAYOUT_SYSTEM_PROMPT@,
            "UI JSON: "@ + ui_json@ + "\nStructure JSON: "@ + structure_json@ + "\nPages JSON: "@ + pages_json@,
        ),
{
    let mut user = String::from_str("UI JSON: ");
    user.append(ui_json);
    user.append("\nStructure JSON: ");
    user.append(structure_json);
    user.append("\nPages JSON: ");
    user.append(pages_json);
    two_messages(LAYOUT_SYSTEM_PROMPT, user)
}

} // verus!
