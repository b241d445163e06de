//! The nodes of the traditional flow: the model stages carry the client that answers
//! them, and what a stage decides or computes without a model is here.
use vstd::prelude::*;
use vstd::string::StringExecFns;
use crate::json_repair::{strip_code_fence, strip_code_fence_spec};
use crate::schema::{
    ComponentGenInput, ComponentGenOutput, FileNode, GeneratedBy, HooksInput, HooksOutput,
    FilesInput, FilesOutput, LayoutInput, LayoutOutput, LayoutPattern, MockDataInput,
    MockDataOutput, PlanOutput, PostProcessInput, PostProcessOutput, StructureOutput, UtilsFile,
    UtilsInput, UtilsOutput,
};
use crate::str_map::{keys_distinct, lemma_map_of, map_of, StrMap};
use crate::text::{chars_of, occurs_at, occurs_at_exec, push_char, str_eq};

verus! {

broadcast use vstd::string::group_string_axioms;

/// The analysis stage, answered by the model behind its client.
#[derive(Debug)]
pub struct AnalysisNode<C> {
    client: C,
}

impl<C> AnalysisNode<C> {
    /// The client the node was built with.
    pub closed spec fn client_spec(&self) -> C {
        self.client
    }

    /// A node that asks `client`.
    pub fn new(client: C) -> (r: Self)
        ensures
            r.client_spec() == client,
    {
        AnalysisNode { client }
    }

    /// The client of the node.
    pub fn client(&self) -> (r: &C)
        ensures
            *r == self.client_spec(),
    {
        &self.client
    }
}

/// The intent stage, answered by the model behind its client.
#[derive(Debug)]
pub struct IntentNode<C> {
    client: C,
}

impl<C> IntentNode<C> {
    /// The client the node was built with.
    pub closed spec fn client_spec(&self) -> C {
        self.client
    }

    /// A node that asks `client`.
    pub fn new(client: C) -> (r: Self)
        ensures
            r.client_spec() == client,
    {
        IntentNode { client }
    }

    /// The client of the node.
    pub fn client(&self) -> (r: &C)
        ensures
            *r == self.client_spec(),
    {
        &self.client
    }
}

/// The UI planning stage, answered by the model behind its client.
#[derive(Debug)]
pub struct UiNode<C> {
    client: C,
}

impl<C> UiNode<C> {
    /// The client the node was built with.
    pub closed spec fn client_spec(&self) -> C {
        self.client
    }

    /// A node that asks `client`.
    pub fn new(client: C) -> (r: Self)
        ensures
            r.client_spec() == client,
    {
        UiNode { client }
    }

    /// The client of the node.
    pub fn client(&self) -> (r: &C)
        ensures
            *r == self.client_spec(),
    {
        &self.client
    }
}

/// The component specification stage, answered by the model behind its client.
#[derive(Debug)]
pub struct ComponentNode<C> {
    client: C,
}

impl<C> ComponentNode<C> {
    /// The client the node was built with.
    pub closed spec fn client_spec(&self) -> C {
        self.client
    }

    /// A node that asks `client`.
    pub fn new(client: C) -> (r: Self)
        ensures
            r.client_spec() == client,
    {
        ComponentNode { client }
    }

    /// The client of the node.
    pub fn client(&self) -> (r: &C)
        ensures
            *r == self.client_spec(),
    {
        &self.client
    }
}

/// The file structure stage, answered by the model behind its client.
#[derive(Debug)]
pub struct StructureNode<C> {
    client: C,
}

impl<C> StructureNode<C> {
    /// The client the node was built with.
    pub closed spec fn client_spec(&self) -> C {
        self.client
    }

    /// A node that asks `client`.
    pub fn new(client: C) -> (r: Self)
        ensures
            r.client_spec() == client,
    {
        StructureNode { client }
    }

    /// The client of the node.
    pub fn client(&self) -> (r: &C)
        ensures
            *r == self.client_spec(),
    {
        &self.client
    }
}

/// The type definition stage, answered by the model behind its client.
#[derive(Debug)]
pub struct TypeNode<C> {
    client: C,
}

impl<C> TypeNode<C> {
    /// The client the node was built with.
    pub closed spec fn client_spec(&self) -> C {
        self.client
    }

    /// A node that asks `client`.
    pub fn new(client: C) -> (r: Self)
        ensures
            r.client_spec() == client,
    {
        TypeNode { client }
    }

    /// The client of the node.
    pub fn client(&self) -> (r: &C)
        ensures
            *r == self.client_spec(),
    {
        &self.client
    }
}

/// The mock data stage, answered by the model behind its client.
#[derive(Debug)]
pub struct MockDataNode<C> {
    client: C,
}

impl<C> MockDataNode<C> {
    /// The client the node was built with.
    pub closed spec fn client_spec(&self) -> C {
        self.client
    }

    /// A node that asks `client`.
    pub fn new(client: C) -> (r: Self)
        ensures
            r.client_spec() == client,
    {
        MockDataNode { client }
    }

    /// The client of the node.
    pub fn client(&self) -> (r: &C)
        ensures
            *r == self.client_spec(),
    {
        &self.client
    }
}

/// The hooks stage, answered by the model behind its client.
#[derive(Debug)]
pub struct HooksNode<C> {
    client: C,
}

impl<C> HooksNode<C> {
    /// The client the node was built with.
    pub closed spec fn client_spec(&self) -> C {
        self.client
    }

    /// A node that asks `client`.
    pub fn new(client: C) -> (r: Self)
        ensures
            r.client_spec() == client,
    {
        HooksNode { client }
    }

    /// The client of the node.
    pub fn client(&self) -> (r: &C)
        ensures
            *r == self.client_spec(),
    {
        &self.client
    }
}

/// The component code stage, answered by the model behind its client.
#[derive(Debug)]
pub struct ComponentGenNode<C> {
    client: C,
}

impl<C> ComponentGenNode<C> {
    /// The client the node was built with.
    pub closed spec fn client_spec(&self) -> C {
        self.client
    }

    /// A node that asks `client`.
    pub fn new(client: C) -> (r: Self)
        ensures
            r.client_spec() == client,
    {
        ComponentGenNode { client }
    }

    /// The client of the node.
    pub fn client(&self) -> (r: &C)
        ensures
            *r == self.client_spec(),
    {
        &self.client
    }
}

/// The layout stage, answered by the model behind its client.
#[derive(Debug)]
pub struct LayoutNode<C> {
    client: C,
}

impl<C> LayoutNode<C> {
    /// The client the node was built with.
    pub closed spec fn client_spec(&self) -> C {
        self.client
    }

    /// A node that asks `client`.
    pub fn new(client: C) -> (r: Self)
        ensures
            r.client_spec() == client,
    {
        LayoutNode { client }
    }

    /// The client of the node.
    pub fn client(&self) -> (r: &C)
        ensures
            *r == self.client_spec(),
    {
        &self.client
    }
}

/// The app entry stage, answered by the model behind its client.
#[derive(Debug)]
pub struct AppGenNode<C> {
    client: C,
}

impl<C> AppGenNode<C> {
    /// The client the node was built with.
    pub closed spec fn client_spec(&self) -> C {
        self.client
    }

    /// A node that asks `client`.
    pub fn new(client: C) -> (r: Self)
        ensures
            r.client_spec() == client,
    {
        AppGenNode { client }
    }

    /// The client of the node.
    pub fn client(&self) -> (r: &C)
        ensures
            *r == self.client_spec(),
    {
        &self.client
    }
}

/// The planning stage, answered by the model behind its client.
#[derive(Debug)]
pub struct PlanNode<C> {
    client: C,
}

impl<C> PlanNode<C> {
    /// The client the node was built with.
    pub closed spec fn client_spec(&self) -> C {
        self.client
    }

    /// A node that asks `client`.
    pub fn new(client: C) -> (r: Self)
        ensures
            r.client_spec() == client,
    {
        PlanNode { client }
    }

    /// The client of the node.
    pub fn client(&self) -> (r: &C)
        ensures
            *r == self.client_spec(),
    {
        &self.client
    }
}

// ---------------------------------------------------------------------------
// Stages that need no model on some inputs.
// ---------------------------------------------------------------------------
/// Whether `s` starts with `p`.
pub open spec fn starts_with(s: Seq<char>, p: Seq<char>) -> bool {
    occurs_at(s, p, 0)
}

/// Whether `s` ends with `p`.
pub open spec fn ends_with(s: Seq<char>, p: Seq<char>) -> bool {
    p.len() <= s.len() && occurs_at(s, p, s.len() - p.len())
}

fn starts_with_exec(s: &str, p: &str) -> (r: bool)
    ensures
        r == starts_with(s@, p@),
{
    occurs_at_exec(&chars_of(s), &chars_of(p), 0)
}

fn ends_with_exec(s: &str, p: &str) -> (r: bool)
    ensures
        r == ends_with(s@, p@),
{
    let sv = chars_of(s);
    let pv = chars_of(p);
    if pv.len() > sv.len() {
        return false;
    }
    occurs_at_exec(&sv, &pv, sv.len() - pv.len())
}

/// A file the component stage plans: a `.tsx` file under `/components/`.
pub open spec fn is_component_file(f: FileNode) -> bool {
    &&& f.generated_by == GeneratedBy::Component
    &&& starts_with(f.path@, "/components/"@)
    &&& ends_with(f.path@, ".tsx"@)
}

/// Whether the structure plans any component file.
pub open spec fn plans_component_file(files: Seq<FileNode>) -> bool {
    exists|i: int| 0 <= i < files.len() && is_component_file(#[trigger] files[i])
}

/// Whether the structure plans a component file.
pub fn has_component_files(structure: &StructureOutput) -> (r: bool)
    ensures
        r == plans_component_file(structure.files@),
{
    let mut i: usize = 0;
    while i < structure.files.len()
        invariant
            i <= structure.files@.len(),
            forall|j: int| 0 <= j < i ==> !is_component_file(#[trigger] structure.files@[j]),
        decreases structure.files@.len() - i,
    {
        let f = &structure.files[i];
        if f.generated_by == GeneratedBy::Component && starts_with_exec(
            f.path.as_str(),
            "/components/",
        ) && ends_with_exec(f.path.as_str(), ".tsx") {
            return true;
        }
        i += 1;
    }
    false
}

impl<C> ComponentGenNode<C> {
    /// The result without the model: no files when the structure plans no component
    /// file; `None` when the model must write them.
    pub fn skipped_output(input: &ComponentGenInput) -> (r: Option<ComponentGenOutput>)
        ensures
            r is Some <==> !plans_component_file(input.structure.files@),
            r matches Some(o) ==> o.files@.len() == 0,
    {
        if has_component_files(&input.structure) {
            None
        } else {
            Some(ComponentGenOutput { files: Vec::new() })
        }
    }
}

/// Whether the layout stage has nothing to do: a single-page app, or at most one page.
pub open spec fn layout_skipped(input: LayoutInput) -> bool {
    input.ui.layout_pattern == LayoutPattern::SinglePage || input.pages.files@.len() <= 1
}

impl<C> LayoutNode<C> {
    /// The result without the model: no layouts and no routes for a single-page app or
    /// at most one page; `None` when the model must write the layouts.
    pub fn skipped_output(input: &LayoutInput) -> (r: Option<LayoutOutput>)
        ensures
            r is Some <==> layout_skipped(*input),
            r matches Some(o) ==> o.layouts_code@.len() == 0 && o.route_structure@
                == Map::<Seq<char>, Vec<String>>::empty(),
    {
        if input.ui.layout_pattern == LayoutPattern::SinglePage || input.pages.files.len() <= 1 {
            Some(LayoutOutput { layouts_code: Vec::new(), route_structure: StrMap::new() })
        } else {
            None
        }
    }
}

impl<C> HooksNode<C> {
    /// The result without the model: no hooks when there is no service; `None` when
    /// the model must write them.
    pub fn skipped_output(input: &HooksInput) -> (r: Option<HooksOutput>)
        ensures
            r is Some <==> input.service.files@.len() == 0,
            r matches Some(o) ==> o.files@.len() == 0,
    {
        if input.service.files.len() == 0 {
            Some(HooksOutput { files: Vec::new() })
        } else {
            None
        }
    }
}

impl<C> MockDataNode<C> {
    /// The result without the model: no mock data when there are no types; `None` when
    /// the model must write it.
    pub fn skipped_output(input: &MockDataInput) -> (r: Option<MockDataOutput>)
        ensures
            r is Some <==> input.types.files@.len() == 0,
            r matches Some(o) ==> o.files@.len() == 0,
    {
        if input.types.files.len() == 0 {
            Some(MockDataOutput { files: Vec::new() })
        } else {
            None
        }
    }
}

// ---------------------------------------------------------------------------
// The shared utilities.
// ---------------------------------------------------------------------------
/// The shared helper that merges class names.
pub const CLASS_NAME_UTILS_CODE: &'static str = "import { clsx, type ClassValue } from \"clsx\";\nimport { twMerge } from \"tailwind-merge\";\n\nexport function cn(...inputs: ClassValue[]) {\n  return twMerge(clsx(inputs));\n}\n";

/// The code of the shared class name helper.
pub fn class_name_utils_code() -> (r: String)
    ensures
        r@ == CLASS_NAME_UTILS_CODE@,
{
    String::from_str(CLASS_NAME_UTILS_CODE)
}

/// A planned file that calls for the shared utilities: `/lib/utils.ts` itself, or any
/// scaffold file.
pub open spec fn needs_utils(f: FileNode) -> bool {
    f.path@ == "/lib/utils.ts"@ || f.generated_by == GeneratedBy::Scaffold
}

/// Whether the structure calls for the shared utilities.
pub open spec fn utils_needed(files: Seq<FileNode>) -> bool {
    exists|i: int| 0 <= i < files.len() && needs_utils(#[trigger] files[i])
}

/// The utilities stage's result: `/lib/utils.ts` with the class name helper when the
/// structure calls for it, else no file.
pub open spec fn utils_result(input: UtilsInput, out: UtilsOutput) -> bool {
    if utils_needed(input.structure.files@) {
        &&& out.files@.len() == 1
        &&& out.files@[0].path@ == "/lib/utils.ts"@
        &&& out.files@[0].code@ == CLASS_NAME_UTILS_CODE@
        &&& out.files@[0].description matches Some(d) && d@
            == "Shared className merge utility"@
    } else {
        out.files@.len() == 0
    }
}

/// The stage that writes the shared utilities; it needs no model.
#[derive(Debug, Clone, Copy)]
pub struct UtilsNode;

impl UtilsNode {
    /// The node.
    pub fn new() -> (r: Self) {
        UtilsNode
    }

    /// Writes `/lib/utils.ts` when the structure holds that file or any scaffold file.
    pub fn run(&self, input: UtilsInput) -> (r: UtilsOutput)
        ensures
            utils_result(input, r),
    {
        let mut should_generate = false;
        let mut i: usize = 0;
        while i < input.structure.files.len()
            invariant
                i <= input.structure.files@.len(),
                should_generate == exists|j: int|
                    0 <= j < i && needs_utils(#[trigger] input.structure.files@[j]),
            decreases input.structure.files@.len() - i,
        {
            let f = &input.structure.files[i];
            if str_eq(f.path.as_str(), "/lib/utils.ts") || f.generated_by == GeneratedBy::Scaffold {
                should_generate = true;
            }
            i += 1;
        }
        let mut files: Vec<UtilsFile> = Vec::new();
        if should_generate {
            files.push(
                UtilsFile {
                    path: String::from_str("/lib/utils.ts"),
                    code: class_name_utils_code(),
                    description: Some(String::from_str("Shared className merge utility")),
                },
            );
        }
        UtilsOutput { files }
    }
}

impl Default for UtilsNode {
    fn default() -> (r: Self) {
        UtilsNode::new()
    }
}

// ---------------------------------------------------------------------------
// Post-processing.
// ---------------------------------------------------------------------------
/// A file's content once fixed: the content of a markdown fence the model wrapped it
/// in, or the content unchanged.
pub open spec fn fixed_content(c: Seq<char>) -> Seq<char> {
    strip_code_fence_spec(c)
}

/// How many of the entries' contents the fix changes.
pub open spec fn fix_count(s: Seq<(String, String)>) -> nat
    decreases s.len(),
{
    if s.len() == 0 {
        0
    } else {
        fix_count(s.drop_last()) + if fixed_content(s.last().1@) != s.last().1@ {
            1nat
        } else {
            0nat
        }
    }
}

/// `out` holds the files of `files`, each with its content fixed.
pub open spec fn fixed_files(files: Map<Seq<char>, String>, out: Map<Seq<char>, String>) -> bool {
    &&& out.dom() == files.dom()
    &&& forall|k: Seq<char>| #[trigger] files.contains_key(k) ==> out[k]@ == fixed_content(files[k]@)
}

/// Fixes every file, and counts the files that changed.
pub fn fix_files(files: &StrMap<String>) -> (r: (StrMap<String>, usize))
    ensures
        fixed_files(files@, r.0@),
        r.1 == fix_count(files.entry_seq()),
{
    let entries = files.entries();
    let mut out: StrMap<String> = StrMap::new();
    let mut fixes: usize = 0;
    let mut i: usize = 0;
    while i < entries.len()
        invariant
            i <= entries@.len(),
            keys_distinct(entries@),
            map_of(entries@) == files@,
            entries@ == files.entry_seq(),
            fixed_files(map_of(entries@.take(i as int)), out@),
            fixes == fix_count(entries@.take(i as int)),
            fixes <= i,
        decreases entries@.len() - i,
    {
        let k = &entries[i].0;
        let v = &entries[i].1;
        let fixed = strip_code_fence(v.as_str());
        let changed = !str_eq(fixed.as_str(), v.as_str());
        let ghost before = out@;
        out.insert(k.clone(), fixed);
        if changed {
            fixes += 1;
        }
        proof {
            let t = entries@.take(i + 1);
            assert(t.drop_last() =~= entries@.take(i as int));
            assert(t.last() == entries@[i as int]);
            let m = map_of(t);
            assert(m == map_of(entries@.take(i as int)).insert(k@, *v));
            assert(out@.dom() =~= m.dom());
        }
        i += 1;
    }
    assert(entries@.take(entries@.len() as int) =~= entries@);
    (out, fixes)
}

/// The post-processing stage's result: the assembled files, each fixed, and how many
/// of them the fix changed.
pub open spec fn post_process_result(input: PostProcessInput, out: PostProcessOutput) -> bool {
    &&& fixed_files(input.assembled.files@, out.files@)
    &&& out.total_fixes == fix_count(input.assembled.files.entry_seq())
}

/// The stage that fixes the assembled files; it needs no model.
#[derive(Debug, Clone, Copy)]
pub struct PostProcessNode;

impl PostProcessNode {
    /// The node.
    pub fn new() -> (r: Self) {
        PostProcessNode
    }

    /// Fixes the assembled files.
    pub fn run(&self, input: PostProcessInput) -> (r: PostProcessOutput)
        ensures
            post_process_result(input, r),
    {
        let (files, total_fixes) = fix_files(&input.assembled.files);
        PostProcessOutput { files, total_fixes }
    }
}

impl Default for PostProcessNode {
    fn default() -> (r: Self) {
        PostProcessNode::new()
    }
}

// ---------------------------------------------------------------------------
// The minimal project files.
// ---------------------------------------------------------------------------
/// A character of a package name: ASCII letters lowered, digits, `-` and `_` kept,
/// anything else turned into `-`.
pub open spec fn slug_char(c: char) -> char {
    if 'A' <= c <= 'Z' {
        ((c as int) + 32) as char
    } else if ('a' <= c <= 'z') || ('0' <= c <= '9') || c == '-' || c == '_' {
        c
    } else {
        '-'
    }
}

/// The package name of a project name.
pub open spec fn slug(s: Seq<char>) -> Seq<char> {
    Seq::new(s.len(), |i: int| slug_char(s[i]))
}

/// A package name has one character for each character of the project name, and each
/// is an ASCII small letter, a digit, `-` or `_`: capitals are made small, small letters,
/// digits, `-` and `_` are kept, and every other character becomes `-`.
pub proof fn lemma_package_name_characters(s: Seq<char>)
    ensures
        slug(s).len() == s.len(),
        forall|i: int|
            0 <= i < s.len() ==> {
                let c = s[i];
                let d = #[trigger] slug(s)[i];
                &&& ('a' <= d <= 'z') || ('0' <= d <= '9') || d == '-' || d == '_'
                &&& 'A' <= c <= 'Z' ==> d as u32 == c as u32 + 32
                &&& ('a' <= c <= 'z') || ('0' <= c <= '9') || c == '-' || c == '_' ==> d == c
                &&& !(('A' <= c <= 'Z') || ('a' <= c <= 'z') || ('0' <= c <= '9') || c == '-'
                    || c == '_') ==> d == '-'
            },
{
    assert forall|i: int| 0 <= i < s.len() implies {
        let c = s[i];
        let d = #[trigger] slug(s)[i];
        &&& ('a' <= d <= 'z') || ('0' <= d <= '9') || d == '-' || d == '_'
        &&& 'A' <= c <= 'Z' ==> d as u32 == c as u32 + 32
    } by {
        let c = s[i];
        if 'A' <= c <= 'Z' {
            let n = (c as int) + 32;
            assert(97 <= n <= 122);
            assert((n as char) as u32 == n);
        }
    }
}

fn slug_char_exec(c: char) -> (r: char)
    ensures
        r == slug_char(c),
{
    if 'A' <= c && c <= 'Z' {
        let b: u8 = c as u8;
        ((b + 32) as char)
    } else if ('a' <= c && c <= 'z') || ('0' <= c && c <= '9') || c == '-' || c == '_' {
        c
    } else {
        '-'
    }
}

/// The text of `package.json` up to the package name.
pub const PACKAGE_JSON_HEAD: &'static str = "{\n  \"name\": \"";

/// The text of `package.json` after the package name.
pub const PACKAGE_JSON_TAIL: &'static str = "\",\n  \"private\": true,\n  \"version\": \"0.0.0\",\n  \"type\": \"module\",\n  \"scripts\": {\n    \"dev\": \"vite\",\n    \"build\": \"vite build\",\n    \"preview\": \"vite preview\"\n  },\n  \"dependencies\": {\n    \"react\": \"latest\",\n    \"react-dom\": \"latest\"\n  },\n  \"devDependencies\": {\n    \"@vitejs/plugin-react\": \"latest\",\n    \"typescript\": \"latest\",\n    \"vite\": \"latest\"\n  }\n}\n";

/// The `package.json` of a project, indented by two spaces.
pub open spec fn package_json_spec(project_name: Seq<char>) -> Seq<char> {
    PACKAGE_JSON_HEAD@ + slug(project_name) + PACKAGE_JSON_TAIL@
}

/// The `package.json` of a project: its package name is the project name in lower case
/// with every character outside letters, digits, `-` and `_` turned into `-`.
pub fn package_json(project_name: &str) -> (r: String)
    ensures
        r@ == package_json_spec(project_name@),
{
    let mut r = String::from_str(PACKAGE_JSON_HEAD);
    let ghost head = r@;
    let name = chars_of(project_name);
    let mut i: usize = 0;
    while i < name.len()
        invariant
            i <= name@.len(),
            name@ == project_name@,
            head == PACKAGE_JSON_HEAD@,
            r@ == head + slug(name@.take(i as int)),
        decreases name@.len() - i,
    {
        let c = slug_char_exec(name[i]);
        push_char(&mut r, c);
        i += 1;
        assert(slug(name@.take(i as int)) =~= slug(name@.take(i - 1)).push(c));
    }
    assert(name@.take(name@.len() as int) =~= name@);
    r.append(PACKAGE_JSON_TAIL);
    r
}

/// The text of `src/App.tsx` up to the project name.
pub const APP_TSX_HEAD: &'static str = "import \"./styles.css\";\n\nexport default function App() {\n  return (\n    <main className=\"app\">\n      <h1>";

/// The text of `src/App.tsx` between the project name and its description.
pub const APP_TSX_MIDDLE: &'static str = "</h1>\n      <p>";

/// The text of `src/App.tsx` after the description.
pub const APP_TSX_TAIL: &'static str = "</p>\n    </main>\n  );\n}\n";

/// The `src/App.tsx` of a project.
pub open spec fn app_tsx_spec(project_name: Seq<char>, description: Seq<char>) -> Seq<char> {
    APP_TSX_HEAD@ + project_name + APP_TSX_MIDDLE@ + description + APP_TSX_TAIL@
}

/// The app component, showing the project's name and description.
pub fn app_tsx(project_name: &str, description: &str) -> (r: String)
    ensures
        r@ == app_tsx_spec(project_name@, description@),
{
    let mut r = String::from_str(APP_TSX_HEAD);
    r.append(project_name);
    r.append(APP_TSX_MIDDLE);
    r.append(description);
    r.append(APP_TSX_TAIL);
    r
}

/// The entry point that renders the app.
pub const MAIN_TSX: &'static str = "import React from \"react\";\nimport { createRoot } from \"react-dom/client\";\nimport App from \"./App\";\n\ncreateRoot(document.getElementById(\"root\")!).render(\n  <React.StrictMode>\n    <App />\n  </React.StrictMode>\n);\n";

/// The base style sheet.
pub const STYLES_CSS: &'static str = "body {\n  margin: 0;\n  font-family: system-ui, sans-serif;\n}\n\n.app {\n  padding: 2rem;\n}\n";

/// The entry point `src/main.tsx`.
pub fn main_tsx() -> (r: String)
    ensures
        r@ == MAIN_TSX@,
{
    String::from_str(MAIN_TSX)
}

/// The style sheet `src/styles.css`.
pub fn styles_css() -> (r: String)
    ensures
        r@ == STYLES_CSS@,
{
    String::from_str(STYLES_CSS)
}

/// The minimal files of a planned project, by path.
pub open spec fn planned_files(files: Map<Seq<char>, String>, plan: PlanOutput) -> bool {
    &&& files.dom() == set!["package.json"@, "src/App.tsx"@, "src/main.tsx"@, "src/styles.css"@]
    &&& files["package.json"@]@ == package_json_spec(plan.project_name@)
    &&& files["src/App.tsx"@]@ == app_tsx_spec(plan.project_name@, plan.description@)
    &&& files["src/main.tsx"@]@ == MAIN_TSX@
    &&& files["src/styles.css"@]@ == STYLES_CSS@
}

/// Writes `package.json`, `src/App.tsx`, `src/main.tsx` and `src/styles.css` for a plan.
pub fn generate_files(plan: &PlanOutput) -> (r: FilesOutput)
    ensures
        planned_files(r.files@, *plan),
{
    let mut files: StrMap<String> = StrMap::new();
    files.insert(String::from_str("package.json"), package_json(plan.project_name.as_str()));
    files.insert(
        String::from_str("src/App.tsx"),
        app_tsx(plan.project_name.as_str(), plan.description.as_str()),
    );
    files.insert(String::from_str("src/main.tsx"), main_tsx());
    files.insert(String::from_str("src/styles.css"), styles_css());
    proof {
        reveal_strlit("package.json");
        reveal_strlit("src/App.tsx");
        reveal_strlit("src/main.tsx");
        reveal_strlit("src/styles.css");
        assert("package.json"@[0] != "src/App.tsx"@[0]);
        assert("package.json"@[0] != "src/main.tsx"@[0]);
        assert("package.json"@[0] != "src/styles.css"@[0]);
        assert("src/App.tsx"@.len() != "src/main.tsx"@.len());
        assert("src/App.tsx"@.len() != "src/styles.css"@.len());
        assert("src/main.tsx"@.len() != "src/styles.css"@.len());
    }
    assert(files@.dom() =~= set!["package.json"@, "src/App.tsx"@, "src/main.tsx"@, "src/styles.css"@]);
    FilesOutput { files }
}

/// The stage that writes the minimal project files of a plan; it needs no model.
#[derive(Debug, Clone, Copy)]
pub struct FilesNode;

impl FilesNode {
    /// The node.
    pub fn new() -> (r: Self) {
        FilesNode
    }

    /// Writes the minimal project files of the input's plan.
    pub fn run(&self, input: FilesInput) -> (r: FilesOutput)
        ensures
            planned_files(r.files@, input.plan),
    {
        generate_files(&input.plan)
    }
}

impl Default for FilesNode {
    fn default() -> (r: Self) {
        FilesNode::new()
    }
}

} // verus!
