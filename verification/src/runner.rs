//! The traditional flow as a state machine: it decides, stage by stage, whether a
//! result comes from the mock store or from running the stage's node, wires each
//! node's input from the results gathered so far, and records the events of the run.
//! Whoever drives it performs each action (reading a file, calling a model) and hands
//! the outcome back.
use vstd::prelude::*;
use crate::provider::ModelProvider;
use crate::agent::{
    dev_mock_map, join_path, request_text, ChatRequest, MissingUserMessage, RouteFlow,
    RouteRegistry, mock_enabled, mock_file_name, mock_key, AgentContext, AgentEvent, MockNode,
    MockStore, TraditionalFlowState,
};
use crate::nodes::{
    layout_skipped, plans_component_file, post_process_result, utils_result, ComponentGenNode,
    HooksNode, LayoutNode, MockDataNode, PostProcessNode, UtilsNode,
};
use crate::schema::{
    AnalysisInput, AnalysisOutput, AppGenInput, AppGenOutput, AssembleInput, AssembleOutput,
    CapabilityInput, CapabilityOutput, ComponentGenInput, ComponentGenOutput, ComponentInput,
    ComponentOutput, DependencyInput, DependencyOutput, HooksInput, HooksOutput, IntentInput,
    IntentOutput, LayoutInput, LayoutOutput, MockDataInput, MockDataOutput, PageGenInput,
    PageGenOutput, PostProcessInput, PostProcessOutput, ServiceInput, ServiceOutput,
    StructureInput, StructureOutput, StyleGenInput, StyleGenOutput, TypeInput, TypeOutput,
    UiInput, UiOutput, UtilsInput, UtilsOutput,
};

verus! {

/// How many stages the traditional flow runs.
pub const STAGE_COUNT: usize = 19;

/// A stage of the traditional flow.
#[derive(Debug, Clone, Copy, PartialEq, Eq, Structural)]
pub enum Stage {
    Analysis,
    Intent,
    Capability,
    Ui,
    Component,
    Structure,
    Dependency,
    Type,
    Utils,
    MockData,
    Service,
    Hooks,
    ComponentGen,
    PageGen,
    Layout,
    StyleGen,
    AppGen,
    Assemble,
    PostProcess,
}

/// The stage at position `i` of the pipeline.
pub open spec fn stage_at(i: int) -> Stage {
    if i <= 0 {
        Stage::Analysis
    } else if i == 1 {
        Stage::Intent
    } else if i == 2 {
        Stage::Capability
    } else if i == 3 {
        Stage::Ui
    } else if i == 4 {
        Stage::Component
    } else if i == 5 {
        Stage::Structure
    } else if i == 6 {
        Stage::Dependency
    } else if i == 7 {
        Stage::Type
    } else if i == 8 {
        Stage::Utils
    } else if i == 9 {
        Stage::MockData
    } else if i == 10 {
        Stage::Service
    } else if i == 11 {
        Stage::Hooks
    } else if i == 12 {
        Stage::ComponentGen
    } else if i == 13 {
        Stage::PageGen
    } else if i == 14 {
        Stage::Layout
    } else if i == 15 {
        Stage::StyleGen
    } else if i == 16 {
        Stage::AppGen
    } else if i == 17 {
        Stage::Assemble
    } else {
        Stage::PostProcess
    }
}

/// The mock switch that governs a stage.
pub open spec fn stage_mock_node(s: Stage) -> MockNode {
    match s {
        Stage::Analysis => MockNode::Analysis,
        Stage::Intent => MockNode::Intent,
        Stage::Capability => MockNode::Capability,
        Stage::Ui => MockNode::Ui,
        Stage::Component => MockNode::Component,
        Stage::Structure => MockNode::Structure,
        Stage::Dependency => MockNode::Dependency,
        Stage::Type => MockNode::Type,
        Stage::Utils => MockNode::Utils,
        Stage::MockData => MockNode::MockData,
        Stage::Service => MockNode::Service,
        Stage::Hooks => MockNode::Hooks,
        Stage::ComponentGen => MockNode::ComponentGen,
        Stage::PageGen => MockNode::PageGen,
        Stage::Layout => MockNode::Layout,
        Stage::StyleGen => MockNode::StyleGen,
        Stage::AppGen => MockNode::AppGen,
        Stage::Assemble => MockNode::Assemble,
        Stage::PostProcess => MockNode::PostProcess,
    }
}

/// The stage whose result an event reports; `None` for the files, an error and the end.
pub open spec fn event_stage(e: AgentEvent) -> Option<Stage> {
    match e {
        AgentEvent::Analysis(_) => Some(Stage::Analysis),
        AgentEvent::Intent(_) => Some(Stage::Intent),
        AgentEvent::Capability(_) => Some(Stage::Capability),
        AgentEvent::Ui(_) => Some(Stage::Ui),
        AgentEvent::Component(_) => Some(Stage::Component),
        AgentEvent::Structure(_) => Some(Stage::Structure),
        AgentEvent::Dependency(_) => Some(Stage::Dependency),
        AgentEvent::Type(_) => Some(Stage::Type),
        AgentEvent::Utils(_) => Some(Stage::Utils),
        AgentEvent::MockData(_) => Some(Stage::MockData),
        AgentEvent::Service(_) => Some(Stage::Service),
        AgentEvent::Hooks(_) => Some(Stage::Hooks),
        AgentEvent::ComponentGen(_) => Some(Stage::ComponentGen),
        AgentEvent::PageGen(_) => Some(Stage::PageGen),
        AgentEvent::Layout(_) => Some(Stage::Layout),
        AgentEvent::StyleGen(_) => Some(Stage::StyleGen),
        AgentEvent::AppGen(_) => Some(Stage::AppGen),
        AgentEvent::Assemble(_) => Some(Stage::Assemble),
        AgentEvent::PostProcess(_) => Some(Stage::PostProcess),
        _ => None,
    }
}

impl Stage {
    /// The mock switch that governs the stage.
    pub fn mock_node(self) -> (r: MockNode)
        ensures
            r == stage_mock_node(self),
    {
        match self {
            Stage::Analysis => MockNode::Analysis,
            Stage::Intent => MockNode::Intent,
            Stage::Capability => MockNode::Capability,
            Stage::Ui => MockNode::Ui,
            Stage::Component => MockNode::Component,
            Stage::Structure => MockNode::Structure,
            Stage::Dependency => MockNode::Dependency,
            Stage::Type => MockNode::Type,
            Stage::Utils => MockNode::Utils,
            Stage::MockData => MockNode::MockData,
            Stage::Service => MockNode::Service,
            Stage::Hooks => MockNode::Hooks,
            Stage::ComponentGen => MockNode::ComponentGen,
            Stage::PageGen => MockNode::PageGen,
            Stage::Layout => MockNode::Layout,
            Stage::StyleGen => MockNode::StyleGen,
            Stage::AppGen => MockNode::AppGen,
            Stage::Assemble => MockNode::Assemble,
            Stage::PostProcess => MockNode::PostProcess,
        }
    }

    /// The stage at position `i` of the pipeline.
    pub fn at(i: usize) -> (r: Stage)
        requires
            i < STAGE_COUNT,
        ensures
            r == stage_at(i as int),
    {
        if i == 0 {
            Stage::Analysis
        } else if i == 1 {
            Stage::Intent
        } else if i == 2 {
            Stage::Capability
        } else if i == 3 {
            Stage::Ui
        } else if i == 4 {
            Stage::Component
        } else if i == 5 {
            Stage::Structure
        } else if i == 6 {
            Stage::Dependency
        } else if i == 7 {
            Stage::Type
        } else if i == 8 {
            Stage::Utils
        } else if i == 9 {
            Stage::MockData
        } else if i == 10 {
            Stage::Service
        } else if i == 11 {
            Stage::Hooks
        } else if i == 12 {
            Stage::ComponentGen
        } else if i == 13 {
            Stage::PageGen
        } else if i == 14 {
            Stage::Layout
        } else if i == 15 {
            Stage::StyleGen
        } else if i == 16 {
            Stage::AppGen
        } else if i == 17 {
            Stage::Assemble
        } else {
            Stage::PostProcess
        }
    }
}

// ---------------------------------------------------------------------------
// What a stage reads and what it yields.
// ---------------------------------------------------------------------------
/// The input of a stage's node.
#[derive(Debug)]
pub enum StageInput {
    Analysis(AnalysisInput),
    Intent(IntentInput),
    Capability(CapabilityInput),
    Ui(UiInput),
    Component(ComponentInput),
    Structure(StructureInput),
    Dependency(DependencyInput),
    Type(TypeInput),
    Utils(UtilsInput),
    MockData(MockDataInput),
    Service(ServiceInput),
    Hooks(HooksInput),
    ComponentGen(ComponentGenInput),
    PageGen(PageGenInput),
    Layout(LayoutInput),
    StyleGen(StyleGenInput),
    AppGen(AppGenInput),
    Assemble(AssembleInput),
    PostProcess(PostProcessInput),
}

/// The result of a stage.
#[derive(Debug)]
pub enum StageOutput {
    Analysis(AnalysisOutput),
    Intent(IntentOutput),
    Capability(CapabilityOutput),
    Ui(UiOutput),
    Component(ComponentOutput),
    Structure(StructureOutput),
    Dependency(DependencyOutput),
    Type(TypeOutput),
    Utils(UtilsOutput),
    MockData(MockDataOutput),
    Service(ServiceOutput),
    Hooks(HooksOutput),
    ComponentGen(ComponentGenOutput),
    PageGen(PageGenOutput),
    Layout(LayoutOutput),
    StyleGen(StyleGenOutput),
    AppGen(AppGenOutput),
    Assemble(AssembleOutput),
    PostProcess(PostProcessOutput),
}

/// The stage an input is for.
pub open spec fn input_stage(i: StageInput) -> Stage {
    match i {
        StageInput::Analysis(_) => Stage::Analysis,
        StageInput::Intent(_) => Stage::Intent,
        StageInput::Capability(_) => Stage::Capability,
        StageInput::Ui(_) => Stage::Ui,
        StageInput::Component(_) => Stage::Component,
        StageInput::Structure(_) => Stage::Structure,
        StageInput::Dependency(_) => Stage::Dependency,
        StageInput::Type(_) => Stage::Type,
        StageInput::Utils(_) => Stage::Utils,
        StageInput::MockData(_) => Stage::MockData,
        StageInput::Service(_) => Stage::Service,
        StageInput::Hooks(_) => Stage::Hooks,
        StageInput::ComponentGen(_) => Stage::ComponentGen,
        StageInput::PageGen(_) => Stage::PageGen,
        StageInput::Layout(_) => Stage::Layout,
        StageInput::StyleGen(_) => Stage::StyleGen,
        StageInput::AppGen(_) => Stage::AppGen,
        StageInput::Assemble(_) => Stage::Assemble,
        StageInput::PostProcess(_) => Stage::PostProcess,
    }
}

/// The stage a result belongs to.
pub open spec fn output_stage(o: StageOutput) -> Stage {
    match o {
        StageOutput::Analysis(_) => Stage::Analysis,
        StageOutput::Intent(_) => Stage::Intent,
        StageOutput::Capability(_) => Stage::Capability,
        StageOutput::Ui(_) => Stage::Ui,
        StageOutput::Component(_) => Stage::Component,
        StageOutput::Structure(_) => Stage::Structure,
        StageOutput::Dependency(_) => Stage::Dependency,
        StageOutput::Type(_) => Stage::Type,
        StageOutput::Utils(_) => Stage::Utils,
        StageOutput::MockData(_) => Stage::MockData,
        StageOutput::Service(_) => Stage::Service,
        StageOutput::Hooks(_) => Stage::Hooks,
        StageOutput::ComponentGen(_) => Stage::ComponentGen,
        StageOutput::PageGen(_) => Stage::PageGen,
        StageOutput::Layout(_) => Stage::Layout,
        StageOutput::StyleGen(_) => Stage::StyleGen,
        StageOutput::AppGen(_) => Stage::AppGen,
        StageOutput::Assemble(_) => Stage::Assemble,
        StageOutput::PostProcess(_) => Stage::PostProcess,
    }
}

/// The event that reports a result.
pub open spec fn output_event(o: StageOutput) -> AgentEvent {
    match o {
        StageOutput::Analysis(x) => AgentEvent::Analysis(x),
        StageOutput::Intent(x) => AgentEvent::Intent(x),
        StageOutput::Capability(x) => AgentEvent::Capability(x),
        StageOutput::Ui(x) => AgentEvent::Ui(x),
        StageOutput::Component(x) => AgentEvent::Component(x),
        StageOutput::Structure(x) => AgentEvent::Structure(x),
        StageOutput::Dependency(x) => AgentEvent::Dependency(x),
        StageOutput::Type(x) => AgentEvent::Type(x),
        StageOutput::Utils(x) => AgentEvent::Utils(x),
        StageOutput::MockData(x) => AgentEvent::MockData(x),
        StageOutput::Service(x) => AgentEvent::Service(x),
        StageOutput::Hooks(x) => AgentEvent::Hooks(x),
        StageOutput::ComponentGen(x) => AgentEvent::ComponentGen(x),
        StageOutput::PageGen(x) => AgentEvent::PageGen(x),
        StageOutput::Layout(x) => AgentEvent::Layout(x),
        StageOutput::StyleGen(x) => AgentEvent::StyleGen(x),
        StageOutput::AppGen(x) => AgentEvent::AppGen(x),
        StageOutput::Assemble(x) => AgentEvent::Assemble(x),
        StageOutput::PostProcess(x) => AgentEvent::PostProcess(x),
    }
}

impl StageInput {
    /// The stage the input is for.
    pub fn stage(&self) -> (r: Stage)
        ensures
            r == input_stage(*self),
    {
        match self {
            StageInput::Analysis(_) => Stage::Analysis,
            StageInput::Intent(_) => Stage::Intent,
            StageInput::Capability(_) => Stage::Capability,
            StageInput::Ui(_) => Stage::Ui,
            StageInput::Component(_) => Stage::Component,
            StageInput::Structure(_) => Stage::Structure,
            StageInput::Dependency(_) => Stage::Dependency,
            StageInput::Type(_) => Stage::Type,
            StageInput::Utils(_) => Stage::Utils,
            StageInput::MockData(_) => Stage::MockData,
            StageInput::Service(_) => Stage::Service,
            StageInput::Hooks(_) => Stage::Hooks,
            StageInput::ComponentGen(_) => Stage::ComponentGen,
            StageInput::PageGen(_) => Stage::PageGen,
            StageInput::Layout(_) => Stage::Layout,
            StageInput::StyleGen(_) => Stage::StyleGen,
            StageInput::AppGen(_) => Stage::AppGen,
            StageInput::Assemble(_) => Stage::Assemble,
            StageInput::PostProcess(_) => Stage::PostProcess,
        }
    }
}

impl StageOutput {
    /// The stage the result belongs to.
    pub fn stage(&self) -> (r: Stage)
        ensures
            r == output_stage(*self),
    {
        match self {
            StageOutput::Analysis(_) => Stage::Analysis,
            StageOutput::Intent(_) => Stage::Intent,
            StageOutput::Capability(_) => Stage::Capability,
            StageOutput::Ui(_) => Stage::Ui,
            StageOutput::Component(_) => Stage::Component,
            StageOutput::Structure(_) => Stage::Structure,
            StageOutput::Dependency(_) => Stage::Dependency,
            StageOutput::Type(_) => Stage::Type,
            StageOutput::Utils(_) => Stage::Utils,
            StageOutput::MockData(_) => Stage::MockData,
            StageOutput::Service(_) => Stage::Service,
            StageOutput::Hooks(_) => Stage::Hooks,
            StageOutput::ComponentGen(_) => Stage::ComponentGen,
            StageOutput::PageGen(_) => Stage::PageGen,
            StageOutput::Layout(_) => Stage::Layout,
            StageOutput::StyleGen(_) => Stage::StyleGen,
            StageOutput::AppGen(_) => Stage::AppGen,
            StageOutput::Assemble(_) => Stage::Assemble,
            StageOutput::PostProcess(_) => Stage::PostProcess,
        }
    }
}

// ---------------------------------------------------------------------------
// Wiring the inputs.
// ---------------------------------------------------------------------------
/// The results of exactly the first `n` stages are present.
pub open spec fn filled_exactly(f: TraditionalFlowState, n: int) -> bool {
    &&& (f.analysis is Some <==> 0 < n)
    &&& (f.intent is Some <==> 1 < n)
    &&& (f.capability is Some <==> 2 < n)
    &&& (f.ui is Some <==> 3 < n)
    &&& (f.component is Some <==> 4 < n)
    &&& (f.structure is Some <==> 5 < n)
    &&& (f.dependency is Some <==> 6 < n)
    &&& (f.types is Some <==> 7 < n)
    &&& (f.utils is Some <==> 8 < n)
    &&& (f.mock_data is Some <==> 9 < n)
    &&& (f.service is Some <==> 10 < n)
    &&& (f.hooks is Some <==> 11 < n)
    &&& (f.component_gen is Some <==> 12 < n)
    &&& (f.page_gen is Some <==> 13 < n)
    &&& (f.layout is Some <==> 14 < n)
    &&& (f.style_gen is Some <==> 15 < n)
    &&& (f.app_gen is Some <==> 16 < n)
    &&& (f.assemble is Some <==> 17 < n)
    &&& (f.post_process is Some <==> 18 < n)
}

/// `v` is a clone of the result held in `slot`.
pub open spec fn holds_clone_of<T: Clone>(slot: Option<T>, v: T) -> bool {
    slot matches Some(x) && cloned(x, v)
}

/// The input of a stage is made of clones of the results it reads, as the pipeline
/// wires them, and of the user's request.
pub open spec fn input_wired(request: Seq<char>, f: TraditionalFlowState, input: StageInput) -> bool {
    match input {
        StageInput::Analysis(i) => i.user_request@ == request,
        StageInput::Intent(i) => holds_clone_of(f.analysis, i.analysis) && i.user_request@
            == request,
        StageInput::Capability(i) => holds_clone_of(f.analysis, i.analysis) && holds_clone_of(
            f.intent,
            i.intent,
        ),
        StageInput::Ui(i) => holds_clone_of(f.analysis, i.analysis) && holds_clone_of(
            f.intent,
            i.intent,
        ) && holds_clone_of(f.capability, i.capabilities),
        StageInput::Component(i) => holds_clone_of(f.intent, i.intent) && holds_clone_of(
            f.capability,
            i.capabilities,
        ) && holds_clone_of(f.ui, i.ui),
        StageInput::Structure(i) => holds_clone_of(f.ui, i.ui) && holds_clone_of(
            f.component,
            i.components,
        ) && holds_clone_of(f.capability, i.capabilities),
        StageInput::Dependency(i) => holds_clone_of(f.structure, i.structure),
        StageInput::Type(i) => holds_clone_of(f.component, i.components) && holds_clone_of(
            f.structure,
            i.structure,
        ),
        StageInput::Utils(i) => holds_clone_of(f.structure, i.structure),
        StageInput::MockData(i) => holds_clone_of(f.types, i.types) && holds_clone_of(
            f.structure,
            i.structure,
        ),
        StageInput::Service(i) => holds_clone_of(f.types, i.types) && holds_clone_of(
            f.mock_data,
            i.mock_data,
        ) && holds_clone_of(f.utils, i.utils) && holds_clone_of(f.structure, i.structure),
        StageInput::Hooks(i) => holds_clone_of(f.types, i.types) && holds_clone_of(
            f.service,
            i.service,
        ) && holds_clone_of(f.structure, i.structure),
        StageInput::ComponentGen(i) => holds_clone_of(f.structure, i.structure) && holds_clone_of(
            f.component,
            i.components,
        ) && holds_clone_of(f.types, i.types) && holds_clone_of(f.service, i.service)
            && holds_clone_of(f.hooks, i.hooks),
        StageInput::PageGen(i) => holds_clone_of(f.structure, i.structure) && holds_clone_of(
            f.ui,
            i.ui,
        ) && holds_clone_of(f.component, i.components) && holds_clone_of(
            f.component_gen,
            i.component_code,
        ) && holds_clone_of(f.hooks, i.hooks) && holds_clone_of(f.types, i.types),
        StageInput::Layout(i) => holds_clone_of(f.ui, i.ui) && holds_clone_of(
            f.structure,
            i.structure,
        ) && holds_clone_of(f.page_gen, i.pages),
        StageInput::StyleGen(i) => holds_clone_of(f.ui, i.ui) && holds_clone_of(
            f.component,
            i.components,
        ) && holds_clone_of(f.page_gen, i.pages) && holds_clone_of(f.dependency, i.dependency),
        StageInput::AppGen(i) => holds_clone_of(f.ui, i.ui) && holds_clone_of(
            f.structure,
            i.structure,
        ) && holds_clone_of(f.page_gen, i.pages) && holds_clone_of(f.layout, i.layouts),
        StageInput::Assemble(i) => holds_clone_of(f.dependency, i.dependency) && holds_clone_of(
            f.types,
            i.types,
        ) && holds_clone_of(f.utils, i.utils) && holds_clone_of(f.mock_data, i.mock_data)
            && holds_clone_of(f.service, i.service) && holds_clone_of(f.hooks, i.hooks)
            && holds_clone_of(f.component_gen, i.component_code) && holds_clone_of(
            f.page_gen,
            i.pages,
        ) && holds_clone_of(f.layout, i.layouts) && holds_clone_of(f.style_gen, i.styles)
            && holds_clone_of(f.app_gen, i.app),
        StageInput::PostProcess(i) => holds_clone_of(f.assemble, i.assembled),
    }
}

/// A clone of the result held in `slot`.
fn clone_slot<T: Clone>(slot: &Option<T>) -> (r: T)
    requires
        slot is Some,
    ensures
        holds_clone_of(*slot, r),
{
    let x = slot.as_ref().unwrap();
    x.clone()
}

/// Builds the input of `stage` from the request and the results of the stages before it.
fn input_for(request: &String, f: &TraditionalFlowState, stage: Stage) -> (r: StageInput)
    requires
        forall|j: int| 0 <= j < STAGE_COUNT && stage_at(j) == stage ==> filled_exactly(*f, j),
        exists|j: int| 0 <= j < STAGE_COUNT && stage_at(j) == stage,
    ensures
        input_stage(r) == stage,
        input_wired(request@, *f, r),
{
    match stage {
        Stage::Analysis => StageInput::Analysis(AnalysisInput::new(request.clone())),
        Stage::Intent => {
            assert(stage_at(1) == stage);
            StageInput::Intent(IntentInput::new(clone_slot(&f.analysis), request.clone()))
        },
        Stage::Capability => {
            assert(stage_at(2) == stage);
            StageInput::Capability(
                CapabilityInput::new(clone_slot(&f.analysis), clone_slot(&f.intent)),
            )
        },
        Stage::Ui => {
            assert(stage_at(3) == stage);
            StageInput::Ui(
                UiInput::new(
                    clone_slot(&f.analysis),
                    clone_slot(&f.intent),
                    clone_slot(&f.capability),
                ),
            )
        },
        Stage::Component => {
            assert(stage_at(4) == stage);
            StageInput::Component(
                ComponentInput::new(
                    clone_slot(&f.intent),
                    clone_slot(&f.capability),
                    clone_slot(&f.ui),
                ),
            )
        },
        Stage::Structure => {
            assert(stage_at(5) == stage);
            StageInput::Structure(
                StructureInput::new(
                    clone_slot(&f.ui),
                    clone_slot(&f.component),
                    clone_slot(&f.capability),
                ),
            )
        },
        Stage::Dependency => {
            assert(stage_at(6) == stage);
            StageInput::Dependency(DependencyInput::new(clone_slot(&f.structure)))
        },
        Stage::Type => {
            assert(stage_at(7) == stage);
            StageInput::Type(TypeInput::new(clone_slot(&f.component), clone_slot(&f.structure)))
        },
        Stage::Utils => {
            assert(stage_at(8) == stage);
            StageInput::Utils(UtilsInput::new(clone_slot(&f.structure)))
        },
        Stage::MockData => {
            assert(stage_at(9) == stage);
            StageInput::MockData(
                MockDataInput::new(clone_slot(&f.types), clone_slot(&f.structure)),
            )
        },
        Stage::Service => {
            assert(stage_at(10) == stage);
            StageInput::Service(
                ServiceInput::new(
                    clone_slot(&f.types),
                    clone_slot(&f.mock_data),
                    clone_slot(&f.utils),
                    clone_slot(&f.structure),
                ),
            )
        },
        Stage::Hooks => {
            assert(stage_at(11) == stage);
            StageInput::Hooks(
                HooksInput::new(
                    clone_slot(&f.types),
                    clone_slot(&f.service),
                    clone_slot(&f.structure),
                ),
            )
        },
        Stage::ComponentGen => {
            assert(stage_at(12) == stage);
            StageInput::ComponentGen(
                ComponentGenInput::new(
                    clone_slot(&f.structure),
                    clone_slot(&f.component),
                    clone_slot(&f.types),
                    clone_slot(&f.service),
                    clone_slot(&f.hooks),
                ),
            )
        },
        Stage::PageGen => {
            assert(stage_at(13) == stage);
            StageInput::PageGen(
                PageGenInput::new(
                    clone_slot(&f.structure),
                    clone_slot(&f.ui),
                    clone_slot(&f.component),
                    clone_slot(&f.component_gen),
                    clone_slot(&f.hooks),
                    clone_slot(&f.types),
                ),
            )
        },
        Stage::Layout => {
            assert(stage_at(14) == stage);
            StageInput::Layout(
                LayoutInput::new(
                    clone_slot(&f.ui),
                    clone_slot(&f.structure),
                    clone_slot(&f.page_gen),
                ),
            )
        },
        Stage::StyleGen => {
            assert(stage_at(15) == stage);
            StageInput::StyleGen(
                StyleGenInput::new(
                    clone_slot(&f.ui),
                    clone_slot(&f.component),
                    clone_slot(&f.page_gen),
                    clone_slot(&f.dependency),
                ),
            )
        },
        Stage::AppGen => {
            assert(stage_at(16) == stage);
            StageInput::AppGen(
                AppGenInput::new(
                    clone_slot(&f.ui),
                    clone_slot(&f.structure),
                    clone_slot(&f.page_gen),
                    clone_slot(&f.layout),
                ),
            )
        },
        Stage::Assemble => {
            assert(stage_at(17) == stage);
            StageInput::Assemble(
                AssembleInput::new(
                    clone_slot(&f.dependency),
                    clone_slot(&f.types),
                    clone_slot(&f.utils),
                    clone_slot(&f.mock_data),
                    clone_slot(&f.service),
                    clone_slot(&f.hooks),
                    clone_slot(&f.component_gen),
                    clone_slot(&f.page_gen),
                    clone_slot(&f.layout),
                    clone_slot(&f.style_gen),
                    clone_slot(&f.app_gen),
                ),
            )
        },
        Stage::PostProcess => {
            assert(stage_at(18) == stage);
            StageInput::PostProcess(PostProcessInput::new(clone_slot(&f.assemble)))
        },
    }
}

// ---------------------------------------------------------------------------
// A run.
// ---------------------------------------------------------------------------
/// The state keeps a clone of the result `o` in the slot of its stage.
pub open spec fn stores_clone(f: TraditionalFlowState, o: StageOutput) -> bool {
    match o {
        StageOutput::Analysis(x) => f.analysis matches Some(y) && cloned(x, y),
        StageOutput::Intent(x) => f.intent matches Some(y) && cloned(x, y),
        StageOutput::Capability(x) => f.capability matches Some(y) && cloned(x, y),
        StageOutput::Ui(x) => f.ui matches Some(y) && cloned(x, y),
        StageOutput::Component(x) => f.component matches Some(y) && cloned(x, y),
        StageOutput::Structure(x) => f.structure matches Some(y) && cloned(x, y),
        StageOutput::Dependency(x) => f.dependency matches Some(y) && cloned(x, y),
        StageOutput::Type(x) => f.types matches Some(y) && cloned(x, y),
        StageOutput::Utils(x) => f.utils matches Some(y) && cloned(x, y),
        StageOutput::MockData(x) => f.mock_data matches Some(y) && cloned(x, y),
        StageOutput::Service(x) => f.service matches Some(y) && cloned(x, y),
        StageOutput::Hooks(x) => f.hooks matches Some(y) && cloned(x, y),
        StageOutput::ComponentGen(x) => f.component_gen matches Some(y) && cloned(x, y),
        StageOutput::PageGen(x) => f.page_gen matches Some(y) && cloned(x, y),
        StageOutput::Layout(x) => f.layout matches Some(y) && cloned(x, y),
        StageOutput::StyleGen(x) => f.style_gen matches Some(y) && cloned(x, y),
        StageOutput::AppGen(x) => f.app_gen matches Some(y) && cloned(x, y),
        StageOutput::Assemble(x) => f.assemble matches Some(y) && cloned(x, y),
        StageOutput::PostProcess(x) => f.post_process matches Some(y) && cloned(x, y),
    }
}

/// The events of a finished run after its `n` stage events: an error, then `Done`.
pub open spec fn ends_with_error(ev: Seq<AgentEvent>, n: int) -> bool {
    &&& n < STAGE_COUNT
    &&& ev.len() == n + 2
    &&& ev[n] is Error
    &&& ev[n + 1] is Done
}

/// The events of a run that completed every stage, after its stage events: the
/// post-processed files, then `Done`.
pub open spec fn ends_with_files(ev: Seq<AgentEvent>, n: int) -> bool {
    &&& n == STAGE_COUNT
    &&& ev.len() == n + 2
    &&& ev[n - 1] matches AgentEvent::PostProcess(p) && ev[n] matches AgentEvent::Files(f)
        && f.files@ == p.files@
    &&& ev[n + 1] is Done
}

/// What the driver of a run does next.
#[derive(Debug)]
pub enum RunnerAction {
    /// Read the stage's stored result from the file at `path`.
    LoadMock { stage: Stage, path: String },
    /// Run the stage's node on this input.
    Run(StageInput),
    /// The run is over.
    Finished,
}

/// A run of the traditional flow: its request, the results gathered so far and the
/// events reported so far.
#[derive(Debug)]
pub struct RunState {
    context: AgentContext,
    flow: TraditionalFlowState,
    events: Vec<AgentEvent>,
    next: usize,
    finished: bool,
}

impl RunState {
    /// The events reported so far.
    pub closed spec fn reported(&self) -> Seq<AgentEvent> {
        self.events@
    }

    /// How many stages have produced their result.
    pub closed spec fn completed(&self) -> int {
        self.next as int
    }

    /// Whether the run is over.
    pub closed spec fn is_finished(&self) -> bool {
        self.finished
    }

    /// The results gathered so far.
    pub closed spec fn flow_spec(&self) -> TraditionalFlowState {
        self.flow
    }

    /// The context the run was started with.
    pub closed spec fn context_spec(&self) -> AgentContext {
        self.context
    }

    /// How many results the run can still take before it is over.
    pub closed spec fn steps_left(&self) -> nat {
        if self.finished {
            0
        } else {
            (STAGE_COUNT - self.next) as nat
        }
    }

    /// The run is consistent: the completed stages have their results and their
    /// events, in pipeline order, and a finished run ends as it should.
    pub closed spec fn wf(&self) -> bool {
        &&& self.next <= STAGE_COUNT
        &&& filled_exactly(self.flow, self.next as int)
        &&& self.events@.len() >= self.next
        &&& forall|i: int|
            0 <= i < self.next ==> event_stage(#[trigger] self.events@[i]) == Some(stage_at(i))
        &&& if self.finished {
            ends_with_error(self.events@, self.next as int) || ends_with_files(
                self.events@,
                self.next as int,
            )
        } else {
            self.next < STAGE_COUNT && self.events@.len() == self.next
        }
    }

    /// The events reported so far.
    pub fn events(&self) -> (r: &Vec<AgentEvent>)
        ensures
            r@ == self.reported(),
    {
        &self.events
    }

    /// The events of the run, taking it apart.
    pub fn into_events(self) -> (r: Vec<AgentEvent>)
        ensures
            r@ == self.reported(),
    {
        self.events
    }

    /// Whether the run is over.
    pub fn is_done(&self) -> (r: bool)
        ensures
            r == self.is_finished(),
    {
        self.finished
    }

    /// The context the run was started with.
    pub fn context(&self) -> (r: &AgentContext)
        ensures
            *r == self.context_spec(),
    {
        &self.context
    }

    /// Stores a result in the slot of its stage and returns its event.
    fn store(&mut self, o: StageOutput) -> (e: AgentEvent)
        requires
            filled_exactly(old(self).flow, stage_index_of(output_stage(o))),
        ensures
            e == output_event(o),
            stores_clone(final(self).flow, o),
            filled_exactly(final(self).flow, stage_index_of(output_stage(o)) + 1),
            final(self).events == old(self).events,
            final(self).next == old(self).next,
            final(self).finished == old(self).finished,
            final(self).context == old(self).context,
            o is PostProcess ==> (final(self).flow.post_process matches Some(y) && o matches StageOutput::PostProcess(x) && y.files@ == x.files@),
    {
        match o {
            StageOutput::Analysis(x) => {
                self.flow.analysis = Some(x.clone());
                AgentEvent::Analysis(x)
            },
            StageOutput::Intent(x) => {
                self.flow.intent = Some(x.clone());
                AgentEvent::Intent(x)
            },
            StageOutput::Capability(x) => {
                self.flow.capability = Some(x.clone());
                AgentEvent::Capability(x)
            },
            StageOutput::Ui(x) => {
                self.flow.ui = Some(x.clone());
                AgentEvent::Ui(x)
            },
            StageOutput::Component(x) => {
                self.flow.component = Some(x.clone());
                AgentEvent::Component(x)
            },
            StageOutput::Structure(x) => {
                self.flow.structure = Some(x.clone());
                AgentEvent::Structure(x)
            },
            StageOutput::Dependency(x) => {
                self.flow.dependency = Some(x.clone());
                AgentEvent::Dependency(x)
            },
            StageOutput::Type(x) => {
                self.flow.types = Some(x.clone());
                AgentEvent::Type(x)
            },
            StageOutput::Utils(x) => {
                self.flow.utils = Some(x.clone());
                AgentEvent::Utils(x)
            },
            StageOutput::MockData(x) => {
                self.flow.mock_data = Some(x.clone());
                AgentEvent::MockData(x)
            },
            StageOutput::Service(x) => {
                self.flow.service = Some(x.clone());
                AgentEvent::Service(x)
            },
            StageOutput::Hooks(x) => {
                self.flow.hooks = Some(x.clone());
                AgentEvent::Hooks(x)
            },
            StageOutput::ComponentGen(x) => {
                self.flow.component_gen = Some(x.clone());
                AgentEvent::ComponentGen(x)
            },
            StageOutput::PageGen(x) => {
                self.flow.page_gen = Some(x.clone());
                AgentEvent::PageGen(x)
            },
            StageOutput::Layout(x) => {
                self.flow.layout = Some(x.clone());
                AgentEvent::Layout(x)
            },
            StageOutput::StyleGen(x) => {
                self.flow.style_gen = Some(x.clone());
                AgentEvent::StyleGen(x)
            },
            StageOutput::AppGen(x) => {
                self.flow.app_gen = Some(x.clone());
                AgentEvent::AppGen(x)
            },
            StageOutput::Assemble(x) => {
                self.flow.assemble = Some(x.clone());
                AgentEvent::Assemble(x)
            },
            StageOutput::PostProcess(x) => {
                self.flow.post_process = Some(x.clone());
                AgentEvent::PostProcess(x)
            },
        }
    }
}

/// The position of a stage in the pipeline.
pub open spec fn stage_index_of(s: Stage) -> int {
    match s {
        Stage::Analysis => 0,
        Stage::Intent => 1,
        Stage::Capability => 2,
        Stage::Ui => 3,
        Stage::Component => 4,
        Stage::Structure => 5,
        Stage::Dependency => 6,
        Stage::Type => 7,
        Stage::Utils => 8,
        Stage::MockData => 9,
        Stage::Service => 10,
        Stage::Hooks => 11,
        Stage::ComponentGen => 12,
        Stage::PageGen => 13,
        Stage::Layout => 14,
        Stage::StyleGen => 15,
        Stage::AppGen => 16,
        Stage::Assemble => 17,
        Stage::PostProcess => 18,
    }
}

proof fn lemma_stage_index(i: int)
    requires
        0 <= i < STAGE_COUNT,
    ensures
        stage_index_of(stage_at(i)) == i,
{
}

impl RunState {
    /// A run of `context` that has not started any stage.
    pub fn new(context: AgentContext) -> (r: Self)
        ensures
            r.wf(),
            r.completed() == 0,
            !r.is_finished(),
            r.reported() == Seq::<AgentEvent>::empty(),
            r.context_spec() == context,
    {
        RunState {
            context,
            flow: TraditionalFlowState::new(),
            events: Vec::new(),
            next: 0,
            finished: false,
        }
    }

    /// Records the outcome of the current stage. A result is reported by its event
    /// and kept for the stages after it; after the last stage the delivered files and
    /// `Done` follow. A failure is reported as an error, followed by `Done`, and ends
    /// the run.
    pub fn record(&mut self, outcome: Result<StageOutput, String>)
        requires
            old(self).wf(),
            !old(self).is_finished(),
            outcome matches Ok(o) ==> output_stage(o) == stage_at(old(self).completed()),
        ensures
            final(self).wf(),
            final(self).context_spec() == old(self).context_spec(),
            final(self).steps_left() < old(self).steps_left(),
            match outcome {
                Ok(o) => {
                    &&& final(self).completed() == old(self).completed() + 1
                    &&& stores_clone(final(self).flow_spec(), o)
                    &&& final(self).is_finished() == (final(self).completed() == STAGE_COUNT)
                    &&& final(self).reported().take(final(self).completed()) == old(
                        self,
                    ).reported().push(output_event(o))
                    &&& !final(self).is_finished() ==> final(self).reported() == old(
                        self,
                    ).reported().push(output_event(o))
                },
                Err(m) => {
                    &&& final(self).is_finished()
                    &&& final(self).completed() == old(self).completed()
                    &&& final(self).reported() == old(self).reported().push(
                        AgentEvent::Error(m),
                    ).push(AgentEvent::Done)
                },
            },
    {
        match outcome {
            Err(m) => {
                self.events.push(AgentEvent::Error(m));
                self.events.push(AgentEvent::Done);
                self.finished = true;
            },
            Ok(o) => {
                proof {
                    lemma_stage_index(self.next as int);
                }
                let ghost before = self.events@;
                let event = self.store(o);
                self.events.push(event);
                self.next = self.next + 1;
                assert(self.events@.take(self.next as int) =~= self.events@);
                if self.next == STAGE_COUNT {
                    match self.flow.final_files() {
                        Some(files) => {
                            self.events.push(AgentEvent::Files(files));
                        },
                        None => {},
                    }
                    self.events.push(AgentEvent::Done);
                    self.finished = true;
                    assert(self.events@.take(self.next as int) =~= before.push(event));
                }
            },
        }
    }
}

/// Runs the traditional flow: decides where each stage's result comes from and what
/// each node reads; its driver performs the actions.
#[derive(Debug)]
pub struct AgentRunner<C> {
    main_client: C,
    mock_store: MockStore,
}

impl<C> AgentRunner<C> {
    /// The client the runner was built with.
    pub closed spec fn client_spec(&self) -> C {
        self.main_client
    }

    /// The directory of the runner's mock store.
    pub closed spec fn store_root(&self) -> Seq<char> {
        self.mock_store.root_spec()
    }

    /// A runner whose mock results live under `mock`.
    pub fn new(main_client: C) -> (r: Self)
        ensures
            r.client_spec() == main_client,
            r.store_root() == "mock"@,
    {
        AgentRunner { main_client, mock_store: MockStore::default() }
    }

    /// A runner with the given mock store.
    pub fn with_mock_store(main_client: C, mock_store: MockStore) -> (r: Self)
        ensures
            r.client_spec() == main_client,
            r.store_root() == mock_store.root_spec(),
    {
        AgentRunner { main_client, mock_store }
    }

    /// The client that runs the model stages.
    pub fn main_client(&self) -> (r: &C)
        ensures
            *r == self.client_spec(),
    {
        &self.main_client
    }

    /// Starts a run of `context`.
    pub fn start(&self, context: AgentContext) -> (r: RunState)
        ensures
            r.wf(),
            r.completed() == 0,
            !r.is_finished(),
            r.reported() == Seq::<AgentEvent>::empty(),
            r.context_spec() == context,
    {
        RunState::new(context)
    }

    /// Whether the request's switches take the result of `node` from the mock store.
    fn should_mock(&self, context: &AgentContext, node: MockNode) -> (r: bool)
        ensures
            r == mock_enabled(context.mock_config, mock_key(node)),
    {
        MockStore::should_mock(context.mock_config.as_ref(), node)
    }

    /// What to do next in `run`: nothing when it is over; else, for the current stage,
    /// read its stored result when the request's switch for it is on, or run its node on
    /// the input wired from the request and the earlier results.
    pub fn next_action(&self, run: &RunState) -> (r: RunnerAction)
        requires
            run.wf(),
        ensures
            (r is Finished) == run.is_finished(),
            !run.is_finished() ==> {
                let stage = stage_at(run.completed());
                let mocked = mock_enabled(
                    run.context_spec().mock_config,
                    mock_key(stage_mock_node(stage)),
                );
                &&& (r is LoadMock) == mocked
                &&& (r is Run) == !mocked
                &&& r matches RunnerAction::LoadMock { stage: s, path } ==> s == stage && path@
                    == join_path(self.store_root(), mock_file_name(stage_mock_node(stage)))
                &&& r matches RunnerAction::Run(input) ==> input_stage(input) == stage
                    && input_wired(run.context_spec().user_request@, run.flow_spec(), input)
            },
    {
        if run.finished {
            return RunnerAction::Finished;
        }
        let stage = Stage::at(run.next);
        let node = stage.mock_node();
        if self.should_mock(&run.context, node) {
            let path = self.mock_store.path_for(node);
            RunnerAction::LoadMock { stage, path }
        } else {
            proof {
                lemma_stage_index(run.next as int);
                assert forall|j: int| 0 <= j < STAGE_COUNT && stage_at(j) == stage implies filled_exactly(
                    run.flow,
                    j,
                ) by {
                    lemma_stage_index(j);
                }
            }
            RunnerAction::Run(input_for(&run.context.user_request, &run.flow, stage))
        }
    }
}

// ---------------------------------------------------------------------------
// What every run keeps.
// ---------------------------------------------------------------------------
/// The first events of a run report its completed stages, one each, in pipeline
/// order; no event after them reports a stage.
pub proof fn lemma_stage_events_in_pipeline_order(run: RunState)
    requires
        run.wf(),
    ensures
        0 <= run.completed() <= STAGE_COUNT,
        run.completed() <= run.reported().len(),
        forall|i: int|
            0 <= i < run.completed() ==> event_stage(#[trigger] run.reported()[i]) == Some(
                stage_at(i),
            ),
        forall|i: int|
            run.completed() <= i < run.reported().len() ==> event_stage(
                #[trigger] run.reported()[i],
            ) is None,
{
}

/// A finished run reports `Done` last, and `Done` nowhere else.
pub proof fn lemma_finished_run_ends_with_done(run: RunState)
    requires
        run.wf(),
        run.is_finished(),
    ensures
        run.reported().len() > 0,
        run.reported().last() is Done,
        forall|i: int| 0 <= i < run.reported().len() - 1 ==> !(#[trigger] run.reported()[i] is Done),
{
    assert forall|i: int| 0 <= i < run.reported().len() - 1 implies !(
    #[trigger] run.reported()[i] is Done) by {
        if i < run.completed() {
            assert(event_stage(run.reported()[i]) is Some);
        }
    }
}

/// A run reports an error at most once, and only as the event just before the `Done`
/// that ends it.
pub proof fn lemma_error_only_before_done(run: RunState)
    requires
        run.wf(),
    ensures
        forall|i: int|
            0 <= i < run.reported().len() && (#[trigger] run.reported()[i] is Error) ==> run.is_finished()
                && i == run.reported().len() - 2,
{
    assert forall|i: int|
        0 <= i < run.reported().len() && (#[trigger] run.reported()[i] is Error) implies run.is_finished()
            && i == run.reported().len() - 2 by {
        if i < run.completed() {
            assert(event_stage(run.reported()[i]) is Some);
        }
    }
}

/// A run that finishes without an error has reported every stage in order, then the
/// post-processed files, then `Done`.
pub proof fn lemma_success_delivers_post_processed_files(run: RunState)
    requires
        run.wf(),
        run.is_finished(),
        forall|i: int| 0 <= i < run.reported().len() ==> !(#[trigger] run.reported()[i] is Error),
    ensures
        run.completed() == STAGE_COUNT,
        run.reported().len() == STAGE_COUNT + 2,
        forall|i: int|
            0 <= i < STAGE_COUNT ==> event_stage(#[trigger] run.reported()[i]) == Some(
                stage_at(i),
            ),
        run.reported()[STAGE_COUNT - 1] matches AgentEvent::PostProcess(p)
            && run.reported()[STAGE_COUNT as int] matches AgentEvent::Files(f) && f.files@
            == p.files@,
        run.reported()[STAGE_COUNT + 1] is Done,
{
    if ends_with_error(run.reported(), run.completed()) {
        assert(run.reported()[run.completed()] is Error);
    }
}

/// A run that fails reports the stages completed before the failure, then the error,
/// then `Done`.
pub proof fn lemma_failure_reports_error_then_done(run: RunState, k: int)
    requires
        run.wf(),
        0 <= k < run.reported().len(),
        run.reported()[k] is Error,
    ensures
        run.is_finished(),
        run.completed() < STAGE_COUNT,
        k == run.completed(),
        run.reported().len() == run.completed() + 2,
        run.reported()[k + 1] is Done,
{
    lemma_error_only_before_done(run);
    if ends_with_files(run.reported(), run.completed()) {
        assert(!(run.reported()[k] is Error));
    }
}

// ---------------------------------------------------------------------------
// The graph that runs the traditional flow.
// ---------------------------------------------------------------------------
/// The traditional flow as a graph of nodes, run by an [`AgentRunner`].
#[derive(Debug)]
pub struct TraditionalGraph<C> {
    runner: AgentRunner<C>,
}

impl<C> TraditionalGraph<C> {
    /// The runner of the graph.
    pub closed spec fn runner_spec(&self) -> AgentRunner<C> {
        self.runner
    }

    /// A graph whose mock results live under `mock`.
    pub fn new(main_client: C) -> (r: Self)
        ensures
            r.runner_spec().client_spec() == main_client,
            r.runner_spec().store_root() == "mock"@,
    {
        TraditionalGraph { runner: AgentRunner::new(main_client) }
    }

    /// A graph with the given mock store.
    pub fn with_mock_store(main_client: C, mock_store: MockStore) -> (r: Self)
        ensures
            r.runner_spec().client_spec() == main_client,
            r.runner_spec().store_root() == mock_store.root_spec(),
    {
        TraditionalGraph { runner: AgentRunner::with_mock_store(main_client, mock_store) }
    }

    /// The runner of the graph.
    pub fn runner(&self) -> (r: &AgentRunner<C>)
        ensures
            *r == self.runner_spec(),
    {
        &self.runner
    }
}

// ---------------------------------------------------------------------------
// Stages answered without a model.
// ---------------------------------------------------------------------------
/// Whether a stage's node gives its result on this input without a model: the
/// utilities and the post-processing always do; the hooks, the mock data, the component
/// code and the layouts do when there is nothing for the model to write.
pub open spec fn answered_locally(input: StageInput) -> bool {
    match input {
        StageInput::Utils(_) => true,
        StageInput::PostProcess(_) => true,
        StageInput::Hooks(i) => i.service.files@.len() == 0,
        StageInput::MockData(i) => i.types.files@.len() == 0,
        StageInput::ComponentGen(i) => !plans_component_file(i.structure.files@),
        StageInput::Layout(i) => layout_skipped(i),
        _ => false,
    }
}

/// The result a node gives without a model.
pub open spec fn local_result(input: StageInput, out: StageOutput) -> bool {
    match input {
        StageInput::Utils(i) => out matches StageOutput::Utils(o) && utils_result(i, o),
        StageInput::PostProcess(i) => out matches StageOutput::PostProcess(o)
            && post_process_result(i, o),
        StageInput::Hooks(_) => out matches StageOutput::Hooks(o) && o.files@.len() == 0,
        StageInput::MockData(_) => out matches StageOutput::MockData(o) && o.files@.len() == 0,
        StageInput::ComponentGen(_) => out matches StageOutput::ComponentGen(o) && o.files@.len()
            == 0,
        StageInput::Layout(_) => out matches StageOutput::Layout(o) && o.layouts_code@.len() == 0
            && o.route_structure@ == Map::<Seq<char>, Vec<String>>::empty(),
        _ => false,
    }
}

/// Gives the stage's result when its node needs no model for this input; otherwise
/// hands the input back for the model.
pub fn run_local(input: StageInput) -> (r: Result<StageOutput, StageInput>)
    ensures
        match r {
            Ok(o) => answered_locally(input) && local_result(input, o) && output_stage(o)
                == input_stage(input),
            Err(i) => !answered_locally(input) && i == input,
        },
{
    match input {
        StageInput::Utils(i) => Ok(StageOutput::Utils(UtilsNode::new().run(i))),
        StageInput::PostProcess(i) => Ok(StageOutput::PostProcess(PostProcessNode::new().run(i))),
        StageInput::Hooks(i) => match HooksNode::<()>::skipped_output(&i) {
            Some(o) => Ok(StageOutput::Hooks(o)),
            None => Err(StageInput::Hooks(i)),
        },
        StageInput::MockData(i) => match MockDataNode::<()>::skipped_output(&i) {
            Some(o) => Ok(StageOutput::MockData(o)),
            None => Err(StageInput::MockData(i)),
        },
        StageInput::ComponentGen(i) => match ComponentGenNode::<()>::skipped_output(&i) {
            Some(o) => Ok(StageOutput::ComponentGen(o)),
            None => Err(StageInput::ComponentGen(i)),
        },
        StageInput::Layout(i) => match LayoutNode::<()>::skipped_output(&i) {
            Some(o) => Ok(StageOutput::Layout(o)),
            None => Err(StageInput::Layout(i)),
        },
        other => Err(other),
    }
}

// ---------------------------------------------------------------------------
// A chat request.
// ---------------------------------------------------------------------------
/// Routes a chat request and builds the context its run starts from: the routed
/// context, with the development mock switches turned on when the main model is the
/// mock and the request set none. Fails when the request has no user message with text.
pub fn prepare_chat(request: &ChatRequest, main_provider: ModelProvider) -> (r: Result<
    AgentContext,
    MissingUserMessage,
>)
    ensures
        r is Ok <==> request_text(request.messages@) is Some,
        r matches Ok(c) ==> {
            &&& Some(c.user_request@) == request_text(request.messages@)
            &&& c.project_id == request.project_id
            &&& if main_provider == ModelProvider::Mock && request.mock_config is None {
                c.mock_config matches Some(m) && m.entries@ == dev_mock_map()
            } else {
                (c.mock_config is Some <==> request.mock_config is Some) && (c.mock_config matches Some(
                    m,
                ) ==> m.entries@ == request.mock_config->0.entries@)
            }
        },
{
    let route = RouteRegistry::new().resolve(request)?;
    let mut context = route.context;
    let main_is_mock = match main_provider {
        ModelProvider::Mock => true,
        _ => false,
    };
    context.ensure_dev_mock_defaults(main_is_mock);
    match route.flow {
        RouteFlow::Traditional => Ok(context),
    }
}

/// The events that answer a request that could not be run: the error, then `Done`.
pub fn failure_events(message: String) -> (r: Vec<AgentEvent>)
    ensures
        r@ == seq![AgentEvent::Error(message), AgentEvent::Done],
{
    let r = vec![AgentEvent::Error(message), AgentEvent::Done];
    assert(r@ =~= seq![AgentEvent::Error(message), AgentEvent::Done]);
    r
}

} // verus!
