//! Chat requests, the context the agent builds from them, mock switches, routing,
//! the events of a run and the state the flow accumulates.
use vstd::prelude::*;
use vstd::string::StringExecFns;
use crate::llm::{LlmMessage, LlmRole};
use crate::schema::{
    AnalysisOutput, AppGenOutput, AssembleOutput, CapabilityOutput, ComponentGenOutput,
    ComponentOutput, DependencyOutput, FilesOutput, HooksOutput, IntentOutput, LayoutOutput,
    MockDataOutput, PageGenOutput, PlanOutput, PostProcessOutput, ServiceOutput, StructureOutput,
    StyleGenOutput, TypeOutput, UiOutput, UtilsOutput,
};
use crate::str_map::StrMap;
use crate::text::{chars_of, str_eq, string_of_range, trim, trim_bounds};

verus! {

broadcast use vstd::string::group_string_axioms;

// ---------------------------------------------------------------------------
// Chat requests.
// ---------------------------------------------------------------------------
/// The content of a chat message: text, or anything else the client sent.
#[derive(Debug, Clone, PartialEq, Eq)]
pub enum MessageContent {
    Text(String),
    Other,
}

/// One message of a chat request.
#[derive(Debug)]
pub struct ChatMessage {
    pub id: Option<String>,
    pub role: String,
    pub content: MessageContent,
    pub attachments: Option<serde_json::Value>,
}

/// Which stages to answer from stored mock results: a flag per stage key; a key whose
/// value is not a boolean holds `None`.
#[derive(Debug, Clone)]
pub struct MockConfig {
    pub entries: StrMap<Option<bool>>,
}

/// A chat request from the front end.
#[derive(Debug)]
pub struct ChatRequest {
    pub messages: Vec<ChatMessage>,
    pub project_id: Option<String>,
    pub mock_config: Option<MockConfig>,
}

/// The position of the last message whose role is `user`.
pub open spec fn last_user_index(msgs: Seq<ChatMessage>) -> Option<int>
    decreases msgs.len(),
{
    if msgs.len() == 0 {
        None
    } else if msgs.last().role@ == "user"@ {
        Some(msgs.len() - 1)
    } else {
        last_user_index(msgs.drop_last())
    }
}

/// The user's request: the trimmed text of the last user message, when that message
/// holds text that is not blank.
pub open spec fn request_text(msgs: Seq<ChatMessage>) -> Option<Seq<char>> {
    match last_user_index(msgs) {
        Some(i) => match msgs[i].content {
            MessageContent::Text(s) => if trim(s@).len() > 0 {
                Some(trim(s@))
            } else {
                None
            },
            MessageContent::Other => None,
        },
        None => None,
    }
}

/// The trimmed text of a message's content, when it is text that is not blank.
fn content_text(content: &MessageContent) -> (r: Option<String>)
    ensures
        match r {
            Some(s) => content matches MessageContent::Text(t) && trim(t@).len() > 0 && s@ == trim(
                t@,
            ),
            None => !(content matches MessageContent::Text(t) && trim(t@).len() > 0),
        },
{
    match content {
        MessageContent::Text(t) => {
            let v = chars_of(t.as_str());
            let (lo, hi) = trim_bounds(&v);
            if lo < hi {
                Some(string_of_range(&v, lo, hi))
            } else {
                None
            }
        },
        MessageContent::Other => None,
    }
}

/// The request is missing a user message with text.
#[derive(Debug, Clone, Copy, PartialEq, Eq, Structural)]
pub struct MissingUserMessage;

impl MissingUserMessage {
    /// The message of the error.
    pub fn message(&self) -> (r: &'static str)
        ensures
            r@ == "chat request must contain a user message"@,
    {
        "chat request must contain a user message"
    }
}

/// The trimmed text of the last user message, when there is one and it is not blank.
pub fn user_request_text(messages: &Vec<ChatMessage>) -> (r: Option<String>)
    ensures
        match r {
            Some(s) => request_text(messages@) == Some(s@),
            None => request_text(messages@) is None,
        },
{
    let mut i = messages.len();
    assert(messages@.take(i as int) =~= messages@);
    while i > 0
        invariant
            i <= messages@.len(),
            last_user_index(messages@) == last_user_index(messages@.take(i as int)),
        decreases i,
    {
        proof {
            assert(messages@.take(i as int).drop_last() =~= messages@.take(i - 1));
            assert(messages@.take(i as int).last() == messages@[i - 1]);
        }
        if str_eq(messages[i - 1].role.as_str(), "user") {
            proof {
                assert(last_user_index(messages@) == Some(i - 1));
            }
            return content_text(&messages[i - 1].content);
        }
        i -= 1;
    }
    None
}

/// Converts a chat request into model messages: each user or assistant message whose
/// content is text that is not blank becomes a user message with the trimmed text.
pub open spec fn converted_messages(msgs: Seq<ChatMessage>) -> Seq<(LlmRole, Seq<char>)>
    decreases msgs.len(),
{
    if msgs.len() == 0 {
        Seq::empty()
    } else {
        let rest = converted_messages(msgs.drop_last());
        let m = msgs.last();
        match m.content {
            MessageContent::Text(t) => if trim(t@).len() > 0 && (m.role@ == "user"@ || m.role@
                == "assistant"@) {
                rest.push((LlmRole::User, trim(t@)))
            } else {
                rest
            },
            MessageContent::Other => rest,
        }
    }
}

/// The role and text of each message.
pub open spec fn message_views(msgs: Seq<LlmMessage>) -> Seq<(LlmRole, Seq<char>)> {
    msgs.map_values(|m: LlmMessage| (m.role, m.content@))
}

/// The model messages of a chat request: its user and assistant messages with text,
/// trimmed, all sent with the user role.
pub fn chat_request_to_llm_messages(request: &ChatRequest) -> (r: Vec<LlmMessage>)
    ensures
        message_views(r@) == converted_messages(request.messages@),
{
    let mut out: Vec<LlmMessage> = Vec::new();
    let mut i: usize = 0;
    while i < request.messages.len()
        invariant
            i <= request.messages@.len(),
            message_views(out@) == converted_messages(request.messages@.take(i as int)),
        decreases request.messages@.len() - i,
    {
        let m = &request.messages[i];
        let ghost before = out@;
        proof {
            assert(request.messages@.take(i + 1).drop_last() =~= request.messages@.take(i as int));
        }
        match content_text(&m.content) {
            Some(text) => {
                if str_eq(m.role.as_str(), "user") || str_eq(m.role.as_str(), "assistant") {
                    out.push(LlmMessage::user(text.as_str()));
                    assert(message_views(out@) =~= message_views(before).push(
                        (LlmRole::User, text@),
                    ));
                }
            },
            None => {},
        }
        i += 1;
    }
    assert(request.messages@.take(request.messages@.len() as int) =~= request.messages@);
    out
}

// ---------------------------------------------------------------------------
// The agent context.
// ---------------------------------------------------------------------------
/// What the agent knows of a request.
#[derive(Debug)]
pub struct AgentContext {
    pub project_id: Option<String>,
    pub mock_config: Option<MockConfig>,
    pub user_request: String,
}

/// The mock switches turned on for local development: every stage up to the app entry.
pub open spec fn dev_mock_map() -> Map<Seq<char>, Option<bool>> {
    Map::empty().insert("analysisNode"@, Some(true)).insert("intentNode"@, Some(true)).insert(
        "capabilityNode"@,
        Some(true),
    ).insert("uiNode"@, Some(true)).insert("componentNode"@, Some(true)).insert(
        "structureNode"@,
        Some(true),
    ).insert("dependencyNode"@, Some(true)).insert("typeNode"@, Some(true)).insert(
        "utilsNode"@,
        Some(true),
    ).insert("mockDataNode"@, Some(true)).insert("serviceNode"@, Some(true)).insert(
        "hooksNode"@,
        Some(true),
    ).insert("componentGenNode"@, Some(true)).insert("pageGenNode"@, Some(true)).insert(
        "layoutNode"@,
        Some(true),
    ).insert("styleGenNode"@, Some(true)).insert("appGenNode"@, Some(true))
}

/// The development switches name every stage up to the app entry, and every one of
/// them is on.
pub proof fn lemma_dev_mock_switches_all_on()
    ensures
        dev_mock_map().dom() == set![
            "analysisNode"@,
            "intentNode"@,
            "capabilityNode"@,
            "uiNode"@,
            "componentNode"@,
            "structureNode"@,
            "dependencyNode"@,
            "typeNode"@,
            "utilsNode"@,
            "mockDataNode"@,
            "serviceNode"@,
            "hooksNode"@,
            "componentGenNode"@,
            "pageGenNode"@,
            "layoutNode"@,
            "styleGenNode"@,
            "appGenNode"@,
        ],
        forall|k: Seq<char>| #[trigger] dev_mock_map().contains_key(k) ==> dev_mock_map()[k] == Some(
            true,
        ),
{
    assert(dev_mock_map().dom() =~= set![
        "analysisNode"@,
        "intentNode"@,
        "capabilityNode"@,
        "uiNode"@,
        "componentNode"@,
        "structureNode"@,
        "dependencyNode"@,
        "typeNode"@,
        "utilsNode"@,
        "mockDataNode"@,
        "serviceNode"@,
        "hooksNode"@,
        "componentGenNode"@,
        "pageGenNode"@,
        "layoutNode"@,
        "styleGenNode"@,
        "appGenNode"@,
    ]);
}

/// The mock switches for local development.
pub fn dev_mock_config() -> (r: MockConfig)
    ensures
        r.entries@ == dev_mock_map(),
{
    let mut e: StrMap<Option<bool>> = StrMap::new();
    e.insert(String::from_str("analysisNode"), Some(true));
    e.insert(String::from_str("intentNode"), Some(true));
    e.insert(String::from_str("capabilityNode"), Some(true));
    e.insert(String::from_str("uiNode"), Some(true));
    e.insert(String::from_str("componentNode"), Some(true));
    e.insert(String::from_str("structureNode"), Some(true));
    e.insert(String::from_str("dependencyNode"), Some(true));
    e.insert(String::from_str("typeNode"), Some(true));
    e.insert(String::from_str("utilsNode"), Some(true));
    e.insert(String::from_str("mockDataNode"), Some(true));
    e.insert(String::from_str("serviceNode"), Some(true));
    e.insert(String::from_str("hooksNode"), Some(true));
    e.insert(String::from_str("componentGenNode"), Some(true));
    e.insert(String::from_str("pageGenNode"), Some(true));
    e.insert(String::from_str("layoutNode"), Some(true));
    e.insert(String::from_str("styleGenNode"), Some(true));
    e.insert(String::from_str("appGenNode"), Some(true));
    MockConfig { entries: e }
}

/// `c` is the context of `request`: the trimmed text of its last user message, its
/// project and its mock switches.
pub open spec fn context_of(c: AgentContext, request: ChatRequest) -> bool {
    &&& Some(c.user_request@) == request_text(request.messages@)
    &&& c.project_id == request.project_id
    &&& (c.mock_config is Some <==> request.mock_config is Some)
    &&& (c.mock_config matches Some(m) ==> m.entries@ == request.mock_config->0.entries@)
}

impl AgentContext {
    /// Builds the context of a request: its project, its mock switches and the trimmed
    /// text of its last user message; fails when that message is missing or blank.
    pub fn from_chat_request(request: &ChatRequest) -> (r: Result<Self, MissingUserMessage>)
        ensures
            r is Ok <==> request_text(request.messages@) is Some,
            r matches Ok(c) ==> context_of(c, *request),
    {
        let text = match user_request_text(&request.messages) {
            Some(t) => t,
            None => {
                return Err(MissingUserMessage);
            },
        };
        let project_id = match &request.project_id {
            Some(p) => Some(p.clone()),
            None => None,
        };
        let mock_config = match &request.mock_config {
            Some(m) => Some(MockConfig { entries: m.entries.clone() }),
            None => None,
        };
        proof {
            if mock_config is Some {
                assert(mock_config->0.entries@ =~= request.mock_config->0.entries@);
            }
        }
        Ok(AgentContext { project_id, mock_config, user_request: text })
    }

    /// When the main model is the mock and the request set no mock switches, turns on
    /// the development switches; otherwise leaves the context as it is.
    pub fn ensure_dev_mock_defaults(&mut self, main_is_mock: bool)
        ensures
            final(self).project_id == old(self).project_id,
            final(self).user_request == old(self).user_request,
            if main_is_mock && old(self).mock_config is None {
                final(self).mock_config matches Some(m) && m.entries@ == dev_mock_map()
            } else {
                final(self).mock_config == old(self).mock_config
            },
    {
        if !main_is_mock || self.mock_config.is_some() {
            return;
        }
        self.mock_config = Some(dev_mock_config());
    }
}

// ---------------------------------------------------------------------------
// Mock switches and stored mock results.
// ---------------------------------------------------------------------------
/// A stage whose result can be read from a stored mock file.
#[derive(Debug, Clone, Copy, PartialEq, Eq, Structural)]
pub enum MockNode {
    Analysis,
    Intent,
    Capability,
    Ui,
    Component,
    Structure,
    Dependency,
    Type,
    Utils,
    MockData,
    Service,
    Hooks,
    ComponentGen,
    PageGen,
    Layout,
    StyleGen,
    AppGen,
    Assemble,
    PostProcess,
    Plan,
    Files,
}

/// The switch key of a stage.
pub open spec fn mock_key(node: MockNode) -> Seq<char> {
    match node {
        MockNode::Analysis => "analysisNode"@,
        MockNode::Intent => "intentNode"@,
        MockNode::Capability => "capabilityNode"@,
        MockNode::Ui => "uiNode"@,
        MockNode::Component => "componentNode"@,
        MockNode::Structure => "structureNode"@,
        MockNode::Dependency => "dependencyNode"@,
        MockNode::Type => "typeNode"@,
        MockNode::Utils => "utilsNode"@,
        MockNode::MockData => "mockDataNode"@,
        MockNode::Service => "serviceNode"@,
        MockNode::Hooks => "hooksNode"@,
        MockNode::ComponentGen => "componentGenNode"@,
        MockNode::PageGen => "pageGenNode"@,
        MockNode::Layout => "layoutNode"@,
        MockNode::StyleGen => "styleGenNode"@,
        MockNode::AppGen => "appGenNode"@,
        MockNode::Assemble => "assembleNode"@,
        MockNode::PostProcess => "postProcessNode"@,
        MockNode::Plan => "planNode"@,
        MockNode::Files => "filesNode"@,
    }
}

/// The file that stores a stage's mock result.
pub open spec fn mock_file_name(node: MockNode) -> Seq<char> {
    match node {
        MockNode::Analysis => "analysis_result.json"@,
        MockNode::Intent => "intent_result.json"@,
        MockNode::Capability => "capability_result.json"@,
        MockNode::Ui => "ui_result.json"@,
        MockNode::Component => "component_result.json"@,
        MockNode::Structure => "structure_result.json"@,
        MockNode::Dependency => "dependency_result.json"@,
        MockNode::Type => "type_result.json"@,
        MockNode::Utils => "utils_result.json"@,
        MockNode::MockData => "mock_data_result.json"@,
        MockNode::Service => "service_result.json"@,
        MockNode::Hooks => "hooks_result.json"@,
        MockNode::ComponentGen => "component_gen_result.json"@,
        MockNode::PageGen => "page_gen_result.json"@,
        MockNode::Layout => "layout_result.json"@,
        MockNode::StyleGen => "style_gen_result.json"@,
        MockNode::AppGen => "app_gen_result.json"@,
        MockNode::Assemble => "assemble_result.json"@,
        MockNode::PostProcess => "post_process_result.json"@,
        MockNode::Plan => "plan_result.json"@,
        MockNode::Files => "files_result.json"@,
    }
}

impl MockNode {
    /// The switch key of the stage.
    pub fn key(self) -> (r: &'static str)
        ensures
            r@ == mock_key(self),
    {
        match self {
            MockNode::Analysis => "analysisNode",
            MockNode::Intent => "intentNode",
            MockNode::Capability => "capabilityNode",
            MockNode::Ui => "uiNode",
            MockNode::Component => "componentNode",
            MockNode::Structure => "structureNode",
            MockNode::Dependency => "dependencyNode",
            MockNode::Type => "typeNode",
            MockNode::Utils => "utilsNode",
            MockNode::MockData => "mockDataNode",
            MockNode::Service => "serviceNode",
            MockNode::Hooks => "hooksNode",
            MockNode::ComponentGen => "componentGenNode",
            MockNode::PageGen => "pageGenNode",
            MockNode::Layout => "layoutNode",
            MockNode::StyleGen => "styleGenNode",
            MockNode::AppGen => "appGenNode",
            MockNode::Assemble => "assembleNode",
            MockNode::PostProcess => "postProcessNode",
            MockNode::Plan => "planNode",
            MockNode::Files => "filesNode",
        }
    }

    /// The file that stores the stage's mock result.
    pub fn file_name(self) -> (r: &'static str)
        ensures
            r@ == mock_file_name(self),
    {
        match self {
            MockNode::Analysis => "analysis_result.json",
            MockNode::Intent => "intent_result.json",
            MockNode::Capability => "capability_result.json",
            MockNode::Ui => "ui_result.json",
            MockNode::Component => "component_result.json",
            MockNode::Structure => "structure_result.json",
            MockNode::Dependency => "dependency_result.json",
            MockNode::Type => "type_result.json",
            MockNode::Utils => "utils_result.json",
            MockNode::MockData => "mock_data_result.json",
            MockNode::Service => "service_result.json",
            MockNode::Hooks => "hooks_result.json",
            MockNode::ComponentGen => "component_gen_result.json",
            MockNode::PageGen => "page_gen_result.json",
            MockNode::Layout => "layout_result.json",
            MockNode::StyleGen => "style_gen_result.json",
            MockNode::AppGen => "app_gen_result.json",
            MockNode::Assemble => "assemble_result.json",
            MockNode::PostProcess => "post_process_result.json",
            MockNode::Plan => "plan_result.json",
            MockNode::Files => "files_result.json",
        }
    }
}

/// Whether the switches turn on the mock for the stage with key `key`: the key holds `true`.
pub open spec fn mock_enabled(config: Option<MockConfig>, key: Seq<char>) -> bool {
    config matches Some(c) && c.entries@.contains_key(key) && c.entries@[key] == Some(true)
}

/// `name` joined to the directory `root`, as `Path::join` does for a relative name.
pub open spec fn join_path(root: Seq<char>, name: Seq<char>) -> Seq<char> {
    if root.len() == 0 {
        name
    } else if root.last() == '/' {
        root + name
    } else {
        root + "/"@ + name
    }
}

/// Where stored mock results live.
#[derive(Debug, Clone)]
pub struct MockStore {
    root: String,
}

impl MockStore {
    /// The directory of the store.
    pub closed spec fn root_spec(&self) -> Seq<char> {
        self.root@
    }

    /// A store under the directory `root`.
    pub fn new(root: String) -> (r: Self)
        ensures
            r.root_spec() == root@,
    {
        MockStore { root }
    }

    /// Whether the switches turn on the mock for `node`.
    pub fn should_mock(mock_config: Option<&MockConfig>, node: MockNode) -> (r: bool)
        ensures
            r == mock_enabled(
                match mock_config {
                    Some(c) => Some(*c),
                    None => None,
                },
                mock_key(node),
            ),
    {
        match mock_config {
            Some(c) => match c.entries.get(node.key()) {
                Some(v) => match v {
                    Some(b) => *b,
                    None => false,
                },
                None => false,
            },
            None => false,
        }
    }

    /// The file that stores the mock result of `node`.
    pub fn path_for(&self, node: MockNode) -> (r: String)
        ensures
            r@ == join_path(self.root_spec(), mock_file_name(node)),
    {
        let name = node.file_name();
        let n = self.root.as_str().unicode_len();
        let mut r = self.root.clone();
        if n == 0 {
            return String::from_str(name);
        }
        let last = self.root.as_str().get_char(n - 1);
        if last != '/' {
            r.append("/");
        }
        r.append(name);
        r
    }
}

impl Default for MockStore {
    fn default() -> (r: Self)
        ensures
            r.root_spec() == "mock"@,
    {
        MockStore::new(String::from_str("mock"))
    }
}

// ---------------------------------------------------------------------------
// Routing.
// ---------------------------------------------------------------------------
/// The flow that handles a request.
#[derive(Debug, Clone, Copy, PartialEq, Eq, Structural)]
pub enum RouteFlow {
    Traditional,
}

/// How a request was routed.
#[derive(Debug, Clone, Copy, PartialEq, Eq, Structural)]
pub enum RouteType {
    Prompt,
    Fallback,
}

/// A routed request.
#[derive(Debug)]
pub struct RouteResult {
    pub flow: RouteFlow,
    pub context: AgentContext,
    pub route_type: RouteType,
}

/// A way of routing requests.
#[derive(Debug, Clone, Copy, PartialEq, Eq, Structural)]
pub enum RouteAdapter {
    /// Routes a request that carries a user prompt to the traditional flow.
    Prompt,
}

impl RouteAdapter {
    /// The rank of the adapter: higher ranks are tried first.
    pub fn priority(&self) -> (r: u32)
        ensures
            r == 10,
    {
        match self {
            RouteAdapter::Prompt => 10,
        }
    }

    /// Whether the adapter takes the request: the prompt adapter takes a request whose
    /// last user message holds text.
    pub fn can_handle(&self, request: &ChatRequest) -> (r: bool)
        ensures
            r == (request_text(request.messages@) is Some),
    {
        match self {
            RouteAdapter::Prompt => user_request_text(&request.messages).is_some(),
        }
    }

    /// Routes the request.
    pub fn adapt(&self, request: &ChatRequest) -> (r: Result<RouteResult, MissingUserMessage>)
        ensures
            r is Ok <==> request_text(request.messages@) is Some,
            r matches Ok(res) ==> res.flow == RouteFlow::Traditional && res.route_type
                == RouteType::Prompt && context_of(res.context, *request),
    {
        match self {
            RouteAdapter::Prompt => {
                let context = AgentContext::from_chat_request(request)?;
                Ok(RouteResult { flow: RouteFlow::Traditional, context, route_type: RouteType::Prompt })
            },
        }
    }
}

/// The adapters that route chat requests, tried by falling priority.
#[derive(Debug)]
pub struct RouteRegistry {
    adapters: Vec<RouteAdapter>,
}

impl RouteRegistry {
    /// The adapters, in the order they are tried.
    pub closed spec fn adapters_spec(&self) -> Seq<RouteAdapter> {
        self.adapters@
    }

    /// The registry of all adapters (the prompt adapter is the only one).
    pub fn new() -> (r: Self)
        ensures
            r.adapters_spec() == seq![RouteAdapter::Prompt],
    {
        let adapters = vec![RouteAdapter::Prompt];
        RouteRegistry { adapters }
    }

    /// Routes a request through the first adapter that takes it, or the fallback; fails
    /// when the request has no user message with text.
    pub fn resolve(&self, request: &ChatRequest) -> (r: Result<RouteResult, MissingUserMessage>)
        ensures
            r is Ok <==> request_text(request.messages@) is Some,
            r matches Ok(res) ==> res.flow == RouteFlow::Traditional && context_of(
                res.context,
                *request,
            ) && (self.adapters_spec().contains(RouteAdapter::Prompt) ==> res.route_type
                == RouteType::Prompt),
    {
        let mut i: usize = 0;
        while i < self.adapters.len()
            invariant
                i <= self.adapters@.len(),
                forall|j: int| 0 <= j < i ==> !#[trigger] self.adapters@[j].can_handle_spec(request),
            decreases self.adapters@.len() - i,
        {
            if self.adapters[i].can_handle(request) {
                return self.adapters[i].adapt(request);
            }
            i += 1;
        }
        proof {
            if self.adapters@.contains(RouteAdapter::Prompt) {
                let j = choose|j: int| 0 <= j < self.adapters@.len() && self.adapters@[j]
                    == RouteAdapter::Prompt;
                assert(!self.adapters@[j].can_handle_spec(request));
            }
        }
        self.fallback(request)
    }

    fn fallback(&self, request: &ChatRequest) -> (r: Result<RouteResult, MissingUserMessage>)
        ensures
            r is Ok <==> request_text(request.messages@) is Some,
            r matches Ok(res) ==> res.flow == RouteFlow::Traditional && res.route_type
                == RouteType::Fallback && context_of(res.context, *request),
    {
        let context = AgentContext::from_chat_request(request)?;
        Ok(RouteResult { flow: RouteFlow::Traditional, context, route_type: RouteType::Fallback })
    }
}

impl RouteAdapter {
    /// Whether the adapter takes the request.
    pub open spec fn can_handle_spec(&self, request: &ChatRequest) -> bool {
        match self {
            RouteAdapter::Prompt => request_text(request.messages@) is Some,
        }
    }
}

impl Default for RouteRegistry {
    fn default() -> (r: Self)
        ensures
            r.adapters_spec() == seq![RouteAdapter::Prompt],
    {
        RouteRegistry::new()
    }
}

// ---------------------------------------------------------------------------
// Events and the state of a run.
// ---------------------------------------------------------------------------
/// What a run of the agent reports, in order.
#[derive(Debug, Clone)]
pub enum AgentEvent {
    Analysis(AnalysisOutput),
    Intent(IntentOutput),
    Capability(CapabilityOutput),
    Ui(UiOutput),
    Component(ComponentOutput),
    Structure(StructureOutput),
    Dependency(DependencyOutput),
    Type(TypeOutput),
    Utils(UtilsOutput),
    MockData(MockDataOutput),
    Service(ServiceOutput),
    Hooks(HooksOutput),
    ComponentGen(ComponentGenOutput),
    PageGen(PageGenOutput),
    Layout(LayoutOutput),
    StyleGen(StyleGenOutput),
    AppGen(AppGenOutput),
    Assemble(AssembleOutput),
    PostProcess(PostProcessOutput),
    Plan(PlanOutput),
    Files(FilesOutput),
    Error(String),
    Done,
}

/// The results the traditional flow has gathered so far.
#[derive(Debug)]
pub struct TraditionalFlowState {
    pub analysis: Option<AnalysisOutput>,
    pub intent: Option<IntentOutput>,
    pub capability: Option<CapabilityOutput>,
    pub ui: Option<UiOutput>,
    pub component: Option<ComponentOutput>,
    pub structure: Option<StructureOutput>,
    pub dependency: Option<DependencyOutput>,
    pub types: Option<TypeOutput>,
    pub utils: Option<UtilsOutput>,
    pub mock_data: Option<MockDataOutput>,
    pub service: Option<ServiceOutput>,
    pub hooks: Option<HooksOutput>,
    pub component_gen: Option<ComponentGenOutput>,
    pub page_gen: Option<PageGenOutput>,
    pub layout: Option<LayoutOutput>,
    pub style_gen: Option<StyleGenOutput>,
    pub app_gen: Option<AppGenOutput>,
    pub assemble: Option<AssembleOutput>,
    pub post_process: Option<PostProcessOutput>,
    pub plan: Option<PlanOutput>,
    pub files: Option<FilesOutput>,
}

/// The files a run delivers: the post-processed files, else the assembled files, else
/// the files of the files stage.
pub open spec fn final_files_spec(state: TraditionalFlowState) -> Option<Map<Seq<char>, String>> {
    if state.post_process is Some {
        Some(state.post_process->0.files@)
    } else if state.assemble is Some {
        Some(state.assemble->0.files@)
    } else if state.files is Some {
        Some(state.files->0.files@)
    } else {
        None
    }
}

/// A copy of a file map.
pub fn copy_files(files: &StrMap<String>) -> (r: StrMap<String>)
    ensures
        r@ == files@,
{
    let r = files.clone();
    assert(r@ =~= files@);
    r
}

impl TraditionalFlowState {
    /// A state with no results.
    pub fn new() -> (r: Self)
        ensures
            r.analysis is None && r.intent is None && r.capability is None && r.ui is None
                && r.component is None && r.structure is None && r.dependency is None
                && r.types is None && r.utils is None && r.mock_data is None && r.service is None
                && r.hooks is None && r.component_gen is None && r.page_gen is None
                && r.layout is None && r.style_gen is None && r.app_gen is None
                && r.assemble is None && r.post_process is None && r.plan is None
                && r.files is None,
    {
        TraditionalFlowState {
            analysis: None,
            intent: None,
            capability: None,
            ui: None,
            component: None,
            structure: None,
            dependency: None,
            types: None,
            utils: None,
            mock_data: None,
            service: None,
            hooks: None,
            component_gen: None,
            page_gen: None,
            layout: None,
            style_gen: None,
            app_gen: None,
            assemble: None,
            post_process: None,
            plan: None,
            files: None,
        }
    }

    /// The files the run delivers: post-processed first, then assembled, then planned.
    pub fn final_files(&self) -> (r: Option<FilesOutput>)
        ensures
            match r {
                Some(f) => final_files_spec(*self) == Some(f.files@),
                None => final_files_spec(*self) is None,
            },
    {
        if let Some(post_process) = &self.post_process {
            return Some(FilesOutput { files: copy_files(&post_process.files) });
        }
        if let Some(assemble) = &self.assemble {
            return Some(FilesOutput { files: copy_files(&assemble.files) });
        }
        match &self.files {
            Some(f) => Some(FilesOutput { files: copy_files(&f.files) }),
            None => None,
        }
    }
}

} // verus!
