//! The inputs and outputs of the stages of the traditional generation flow.
use vstd::prelude::*;
use crate::str_map::StrMap;

verus! {

// ---------------------------------------------------------------------------
// Analysis and plan.
// ---------------------------------------------------------------------------
/// The request the analysis stage reads.
#[derive(Debug, Clone)]
pub struct AnalysisInput {
    pub user_request: String,
}

impl AnalysisInput {
    pub fn new(user_request: String) -> (r: Self)
        ensures
            r.user_request == user_request,
    {
        AnalysisInput { user_request }
    }
}

/// What the analysis stage finds in a request.
#[derive(Debug, Clone, PartialEq, Eq)]
pub struct AnalysisOutput {
    pub app_type: String,
    pub summary: String,
    pub features: Vec<String>,
    pub pages: Vec<String>,
    pub components: Vec<String>,
}

/// The analysis the plan stage reads.
#[derive(Debug, Clone)]
pub struct PlanInput {
    pub analysis: AnalysisOutput,
}

impl PlanInput {
    pub fn new(analysis: AnalysisOutput) -> (r: Self)
        ensures
            r.analysis == analysis,
    {
        PlanInput { analysis }
    }
}

/// An implementation plan.
#[derive(Debug, Clone, PartialEq, Eq)]
pub struct PlanOutput {
    pub project_name: String,
    pub description: String,
    pub pages: Vec<PagePlan>,
    pub components: Vec<ComponentPlan>,
}

/// A planned page.
#[derive(Debug, Clone, PartialEq, Eq)]
pub struct PagePlan {
    pub name: String,
    pub route: String,
    pub purpose: String,
}

/// A planned component.
#[derive(Debug, Clone, PartialEq, Eq)]
pub struct ComponentPlan {
    pub name: String,
    pub purpose: String,
}

// ---------------------------------------------------------------------------
// Intent and capabilities.
// ---------------------------------------------------------------------------
/// What the user wants done.
#[derive(Debug, Clone, Copy, PartialEq, Eq, Structural)]
pub enum IntentType {
    Create,
    Modify,
}

/// What the intent stage reads.
#[derive(Debug, Clone)]
pub struct IntentInput {
    pub analysis: AnalysisOutput,
    pub user_request: String,
}

impl IntentInput {
    pub fn new(analysis: AnalysisOutput, user_request: String) -> (r: Self)
        ensures
            r.analysis == analysis,
            r.user_request == user_request,
    {
        IntentInput { analysis, user_request }
    }
}

/// The user's intent.
#[derive(Debug, Clone, PartialEq, Eq)]
pub struct IntentOutput {
    pub intent_type: IntentType,
    pub goal: String,
    pub constraints: Vec<String>,
    pub user_stories: Vec<String>,
}

/// What the capability stage reads.
#[derive(Debug, Clone)]
pub struct CapabilityInput {
    pub analysis: AnalysisOutput,
    pub intent: IntentOutput,
}

impl CapabilityInput {
    pub fn new(analysis: AnalysisOutput, intent: IntentOutput) -> (r: Self)
        ensures
            r.analysis == analysis,
            r.intent == intent,
    {
        CapabilityInput { analysis, intent }
    }
}

/// The capabilities the app needs.
#[derive(Debug, Clone, PartialEq, Eq)]
pub struct CapabilityOutput {
    pub capabilities: Vec<CapabilityItem>,
}

/// One capability.
#[derive(Debug, Clone, PartialEq, Eq)]
pub struct CapabilityItem {
    pub name: String,
    pub description: String,
    pub priority: CapabilityPriority,
}

/// How much a capability matters.
#[derive(Debug, Clone, Copy, PartialEq, Eq, Structural)]
pub enum CapabilityPriority {
    MustHave,
    ShouldHave,
    NiceToHave,
}

// ---------------------------------------------------------------------------
// User interface.
// ---------------------------------------------------------------------------
/// The overall page layout.
#[derive(Debug, Clone, Copy, PartialEq, Eq, Structural)]
pub enum LayoutPattern {
    SinglePage,
    Dashboard,
    SplitPane,
    MultiPage,
}

/// The visual style.
#[derive(Debug, Clone, Copy, PartialEq, Eq, Structural)]
pub enum VisualStyle {
    Minimal,
    Modern,
    Playful,
    Professional,
}

/// What the UI stage reads.
#[derive(Debug, Clone)]
pub struct UiInput {
    pub analysis: AnalysisOutput,
    pub intent: IntentOutput,
    pub capabilities: CapabilityOutput,
}

impl UiInput {
    pub fn new(analysis: AnalysisOutput, intent: IntentOutput, capabilities: CapabilityOutput) -> (r:
        Self)
        ensures
            r.analysis == analysis,
            r.intent == intent,
            r.capabilities == capabilities,
    {
        UiInput { analysis, intent, capabilities }
    }
}

/// The UI strategy.
#[derive(Debug, Clone, PartialEq, Eq)]
pub struct UiOutput {
    pub layout_pattern: LayoutPattern,
    pub visual_style: VisualStyle,
    pub primary_sections: Vec<String>,
    pub interactions: Vec<String>,
    pub responsive_notes: Vec<String>,
}

// ---------------------------------------------------------------------------
// Business components.
// ---------------------------------------------------------------------------
/// What the component stage reads.
#[derive(Debug, Clone)]
pub struct ComponentInput {
    pub intent: IntentOutput,
    pub capabilities: CapabilityOutput,
    pub ui: UiOutput,
}

impl ComponentInput {
    pub fn new(intent: IntentOutput, capabilities: CapabilityOutput, ui: UiOutput) -> (r: Self)
        ensures
            r.intent == intent,
            r.capabilities == capabilities,
            r.ui == ui,
    {
        ComponentInput { intent, capabilities, ui }
    }
}

/// The business components of the app.
#[derive(Debug, Clone, PartialEq, Eq)]
pub struct ComponentOutput {
    pub components: Vec<ComponentSpec>,
}

/// One business component.
#[derive(Debug, Clone, PartialEq, Eq)]
pub struct ComponentSpec {
    pub component_id: String,
    pub original_id: String,
    pub component_type: String,
    pub description: String,
    pub props: Vec<ComponentProp>,
    pub events: Vec<ComponentEvent>,
    pub data_dependencies: Vec<String>,
    pub shadcn_component: Option<String>,
}

/// A prop of a component.
#[derive(Debug, Clone, PartialEq, Eq)]
pub struct ComponentProp {
    pub name: String,
    pub prop_type: String,
    pub description: String,
    pub required: bool,
}

/// An event a component raises.
#[derive(Debug, Clone, PartialEq, Eq)]
pub struct ComponentEvent {
    pub name: String,
    pub description: String,
    pub parameters: Vec<ComponentEventParameter>,
}

/// A parameter of a component event.
#[derive(Debug, Clone, PartialEq, Eq)]
pub struct ComponentEventParameter {
    pub name: String,
    pub parameter_type: String,
}

// ---------------------------------------------------------------------------
// File structure.
// ---------------------------------------------------------------------------
/// What the structure stage reads.
#[derive(Debug, Clone)]
pub struct StructureInput {
    pub ui: UiOutput,
    pub components: ComponentOutput,
    pub capabilities: CapabilityOutput,
}

impl StructureInput {
    pub fn new(ui: UiOutput, components: ComponentOutput, capabilities: CapabilityOutput) -> (r:
        Self)
        ensures
            r.ui == ui,
            r.components == components,
            r.capabilities == capabilities,
    {
        StructureInput { ui, components, capabilities }
    }
}

/// The planned files of the app.
#[derive(Debug, Clone, PartialEq, Eq)]
pub struct StructureOutput {
    pub files: Vec<FileNode>,
}

/// One planned file.
#[derive(Debug, Clone, PartialEq, Eq)]
pub struct FileNode {
    pub path: String,
    pub kind: FileKind,
    pub description: String,
    pub source_correlation: Option<String>,
    pub generated_by: GeneratedBy,
}

/// How a planned file comes to be.
#[derive(Debug, Clone, Copy, PartialEq, Eq, Structural)]
pub enum FileKind {
    Template,
    Overwrite,
    New,
}

/// Which stage writes a planned file.
#[derive(Debug, Clone, Copy, PartialEq, Eq, Structural)]
pub enum GeneratedBy {
    Template,
    Scaffold,
    TypeDefinition,
    MockData,
    AppEntry,
    Component,
    Hook,
    Page,
}

// ---------------------------------------------------------------------------
// Dependencies, types, utilities, mock data, services.
// ---------------------------------------------------------------------------
/// What the dependency stage reads.
#[derive(Debug, Clone)]
pub struct DependencyInput {
    pub structure: StructureOutput,
}

impl DependencyInput {
    pub fn new(structure: StructureOutput) -> (r: Self)
        ensures
            r.structure == structure,
    {
        DependencyInput { structure }
    }
}

/// The npm packages the app depends on, by name, with their versions.
#[derive(Debug, Clone)]
pub struct DependencyOutput {
    pub dependencies: StrMap<String>,
}

/// What the type stage reads.
#[derive(Debug, Clone)]
pub struct TypeInput {
    pub components: ComponentOutput,
    pub structure: StructureOutput,
}

impl TypeInput {
    pub fn new(components: ComponentOutput, structure: StructureOutput) -> (r: Self)
        ensures
            r.components == components,
            r.structure == structure,
    {
        TypeInput { components, structure }
    }
}

/// The TypeScript type files.
#[derive(Debug, Clone, PartialEq, Eq)]
pub struct TypeOutput {
    pub files: Vec<TypeFile>,
}

/// One TypeScript type file.
#[derive(Debug, Clone, PartialEq, Eq)]
pub struct TypeFile {
    pub path: String,
    pub code: String,
    pub model_id: String,
}

/// What the utilities stage reads.
#[derive(Debug, Clone)]
pub struct UtilsInput {
    pub structure: StructureOutput,
}

impl UtilsInput {
    pub fn new(structure: StructureOutput) -> (r: Self)
        ensures
            r.structure == structure,
    {
        UtilsInput { structure }
    }
}

/// The shared utility files.
#[derive(Debug, Clone, PartialEq, Eq)]
pub struct UtilsOutput {
    pub files: Vec<UtilsFile>,
}

/// One utility file.
#[derive(Debug, Clone, PartialEq, Eq)]
pub struct UtilsFile {
    pub path: String,
    pub code: String,
    pub description: Option<String>,
}

/// What the mock data stage reads.
#[derive(Debug, Clone)]
pub struct MockDataInput {
    pub types: TypeOutput,
    pub structure: StructureOutput,
}

impl MockDataInput {
    pub fn new(types: TypeOutput, structure: StructureOutput) -> (r: Self)
        ensures
            r.types == types,
            r.structure == structure,
    {
        MockDataInput { types, structure }
    }
}

/// The mock data files.
#[derive(Debug, Clone, PartialEq, Eq)]
pub struct MockDataOutput {
    pub files: Vec<MockDataFile>,
}

/// One mock data file.
#[derive(Debug, Clone, PartialEq, Eq)]
pub struct MockDataFile {
    pub path: String,
    pub content: String,
    pub description: String,
}

/// What the service stage reads.
#[derive(Debug, Clone)]
pub struct ServiceInput {
    pub types: TypeOutput,
    pub mock_data: MockDataOutput,
    pub utils: UtilsOutput,
    pub structure: StructureOutput,
}

impl ServiceInput {
    pub fn new(
        types: TypeOutput,
        mock_data: MockDataOutput,
        utils: UtilsOutput,
        structure: StructureOutput,
    ) -> (r: Self)
        ensures
            r.types == types,
            r.mock_data == mock_data,
            r.utils == utils,
            r.structure == structure,
    {
        ServiceInput { types, mock_data, utils, structure }
    }
}

/// The data service files.
#[derive(Debug, Clone, PartialEq, Eq)]
pub struct ServiceOutput {
    pub files: Vec<ServiceFile>,
}

/// One data service file.
#[derive(Debug, Clone, PartialEq, Eq)]
pub struct ServiceFile {
    pub path: String,
    pub content: String,
    pub description: String,
}

// ---------------------------------------------------------------------------
// Hooks, components, pages, layouts, styles, the app entry.
// ---------------------------------------------------------------------------
/// What the hooks stage reads.
#[derive(Debug, Clone)]
pub struct HooksInput {
    pub types: TypeOutput,
    pub service: ServiceOutput,
    pub structure: StructureOutput,
}

impl HooksInput {
    pub fn new(types: TypeOutput, service: ServiceOutput, structure: StructureOutput) -> (r: Self)
        ensures
            r.types == types,
            r.service == service,
            r.structure == structure,
    {
        HooksInput { types, service, structure }
    }
}

/// The React hook files.
#[derive(Debug, Clone, PartialEq, Eq)]
pub struct HooksOutput {
    pub files: Vec<HooksFile>,
}

/// One React hook file.
#[derive(Debug, Clone, PartialEq, Eq)]
pub struct HooksFile {
    pub path: String,
    pub content: String,
    pub description: String,
}

/// What the component generation stage reads.
#[derive(Debug, Clone)]
pub struct ComponentGenInput {
    pub structure: StructureOutput,
    pub components: ComponentOutput,
    pub types: TypeOutput,
    pub service: ServiceOutput,
    pub hooks: HooksOutput,
}

impl ComponentGenInput {
    pub fn new(
        structure: StructureOutput,
        components: ComponentOutput,
        types: TypeOutput,
        service: ServiceOutput,
        hooks: HooksOutput,
    ) -> (r: Self)
        ensures
            r.structure == structure,
            r.components == components,
            r.types == types,
            r.service == service,
            r.hooks == hooks,
    {
        ComponentGenInput { structure, components, types, service, hooks }
    }
}

/// The generated component files.
#[derive(Debug, Clone, PartialEq, Eq)]
pub struct ComponentGenOutput {
    pub files: Vec<ComponentCodeFile>,
}

/// One generated component file.
#[derive(Debug, Clone, PartialEq, Eq)]
pub struct ComponentCodeFile {
    pub path: String,
    pub content: String,
    pub description: Option<String>,
}

/// What the page generation stage reads.
#[derive(Debug, Clone)]
pub struct PageGenInput {
    pub structure: StructureOutput,
    pub ui: UiOutput,
    pub components: ComponentOutput,
    pub component_code: ComponentGenOutput,
    pub hooks: HooksOutput,
    pub types: TypeOutput,
}

impl PageGenInput {
    pub fn new(
        structure: StructureOutput,
        ui: UiOutput,
        components: ComponentOutput,
        component_code: ComponentGenOutput,
        hooks: HooksOutput,
        types: TypeOutput,
    ) -> (r: Self)
        ensures
            r.structure == structure,
            r.ui == ui,
            r.components == components,
            r.component_code == component_code,
            r.hooks == hooks,
            r.types == types,
    {
        PageGenInput { structure, ui, components, component_code, hooks, types }
    }
}

/// The generated page files.
#[derive(Debug, Clone, PartialEq, Eq)]
pub struct PageGenOutput {
    pub files: Vec<PageCodeFile>,
}

/// One generated page file.
#[derive(Debug, Clone, PartialEq, Eq)]
pub struct PageCodeFile {
    pub path: String,
    pub content: String,
    pub description: String,
}

/// What the layout stage reads.
#[derive(Debug, Clone)]
pub struct LayoutInput {
    pub ui: UiOutput,
    pub structure: StructureOutput,
    pub pages: PageGenOutput,
}

impl LayoutInput {
    pub fn new(ui: UiOutput, structure: StructureOutput, pages: PageGenOutput) -> (r: Self)
        ensures
            r.ui == ui,
            r.structure == structure,
            r.pages == pages,
    {
        LayoutInput { ui, structure, pages }
    }
}

/// The shared layouts and which pages each one wraps.
#[derive(Debug, Clone)]
pub struct LayoutOutput {
    pub layouts_code: Vec<LayoutFile>,
    pub route_structure: StrMap<Vec<String>>,
}

/// One layout file.
#[derive(Debug, Clone, PartialEq, Eq)]
pub struct LayoutFile {
    pub path: String,
    pub content: String,
    pub description: String,
    pub pages: Vec<String>,
}

/// What the style stage reads.
#[derive(Debug, Clone)]
pub struct StyleGenInput {
    pub ui: UiOutput,
    pub components: ComponentOutput,
    pub pages: PageGenOutput,
    pub dependency: DependencyOutput,
}

impl StyleGenInput {
    pub fn new(
        ui: UiOutput,
        components: ComponentOutput,
        pages: PageGenOutput,
        dependency: DependencyOutput,
    ) -> (r: Self)
        ensures
            r.ui == ui,
            r.components == components,
            r.pages == pages,
            r.dependency == dependency,
    {
        StyleGenInput { ui, components, pages, dependency }
    }
}

/// The generated style sheets.
#[derive(Debug, Clone, PartialEq, Eq)]
pub struct StyleGenOutput {
    pub files: Vec<StyleFile>,
}

/// One generated style sheet.
#[derive(Debug, Clone, PartialEq, Eq)]
pub struct StyleFile {
    pub path: String,
    pub content: String,
    pub description: String,
}

/// What the app entry stage reads.
#[derive(Debug, Clone)]
pub struct AppGenInput {
    pub ui: UiOutput,
    pub structure: StructureOutput,
    pub pages: PageGenOutput,
    pub layouts: LayoutOutput,
}

impl AppGenInput {
    pub fn new(ui: UiOutput, structure: StructureOutput, pages: PageGenOutput, layouts: LayoutOutput) -> (r:
        Self)
        ensures
            r.ui == ui,
            r.structure == structure,
            r.pages == pages,
            r.layouts == layouts,
    {
        AppGenInput { ui, structure, pages, layouts }
    }
}

/// The app entry file.
#[derive(Debug, Clone, PartialEq, Eq)]
pub struct AppGenOutput {
    pub path: String,
    pub content: String,
    pub description: String,
}

// ---------------------------------------------------------------------------
// Assembly, post-processing and the final files.
// ---------------------------------------------------------------------------
/// Everything the assembly stage puts together.
#[derive(Debug, Clone)]
pub struct AssembleInput {
    pub dependency: DependencyOutput,
    pub types: TypeOutput,
    pub utils: UtilsOutput,
    pub mock_data: MockDataOutput,
    pub service: ServiceOutput,
    pub hooks: HooksOutput,
    pub component_code: ComponentGenOutput,
    pub pages: PageGenOutput,
    pub layouts: LayoutOutput,
    pub styles: StyleGenOutput,
    pub app: AppGenOutput,
}

impl AssembleInput {
    pub fn new(
        dependency: DependencyOutput,
        types: TypeOutput,
        utils: UtilsOutput,
        mock_data: MockDataOutput,
        service: ServiceOutput,
        hooks: HooksOutput,
        component_code: ComponentGenOutput,
        pages: PageGenOutput,
        layouts: LayoutOutput,
        styles: StyleGenOutput,
        app: AppGenOutput,
    ) -> (r: Self)
        ensures
            r.dependency == dependency,
            r.types == types,
            r.utils == utils,
            r.mock_data == mock_data,
            r.service == service,
            r.hooks == hooks,
            r.component_code == component_code,
            r.pages == pages,
            r.layouts == layouts,
            r.styles == styles,
            r.app == app,
    {
        AssembleInput {
            dependency,
            types,
            utils,
            mock_data,
            service,
            hooks,
            component_code,
            pages,
            layouts,
            styles,
            app,
        }
    }
}

/// The assembled project: file contents by path, and statistics.
#[derive(Debug, Clone)]
pub struct AssembleOutput {
    pub files: StrMap<String>,
    pub stats: AssembleStats,
}

/// How many files were assembled, in all and by category.
#[derive(Debug, Clone)]
pub struct AssembleStats {
    pub total_files: usize,
    pub categories: StrMap<usize>,
}

/// What the post-processing stage reads.
#[derive(Debug, Clone)]
pub struct PostProcessInput {
    pub assembled: AssembleOutput,
}

impl PostProcessInput {
    pub fn new(assembled: AssembleOutput) -> (r: Self)
        ensures
            r.assembled == assembled,
    {
        PostProcessInput { assembled }
    }
}

/// The post-processed files and how many fixes were made.
#[derive(Debug)]
pub struct PostProcessOutput {
    pub files: StrMap<String>,
    pub total_fixes: usize,
}

impl Clone for PostProcessOutput {
    fn clone(&self) -> (r: Self)
        ensures
            r.files@ == self.files@,
            r.total_fixes == self.total_fixes,
    {
        let files = self.files.clone();
        assert(files@ =~= self.files@);
        PostProcessOutput { files, total_fixes: self.total_fixes }
    }
}

/// What the files stage reads.
#[derive(Debug, Clone)]
pub struct FilesInput {
    pub plan: PlanOutput,
}

impl FilesInput {
    pub fn new(plan: PlanOutput) -> (r: Self)
        ensures
            r.plan == plan,
    {
        FilesInput { plan }
    }
}

/// Project files by path.
#[derive(Debug, Clone)]
pub struct FilesOutput {
    pub files: StrMap<String>,
}

} // verus!
