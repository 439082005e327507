//! Voice tool bridge: the fixed allowlist a realtime model may call, and
//! the control steps each call maps to.
use vstd::prelude::*;
use crate::json::{
    add_item, add_member, all_items, all_members, get, lookup, text, value_of, Json, Value,
};
use crate::text::{join3, same_text, trim, trimmed};

verus! {

/// One control-plane method plus its params.
#[derive(Debug, PartialEq)]
pub struct ControlStep {
    pub method: &'static str,
    pub params: Json,
}

/// What a step asks for.
#[verifier::ext_equal]
pub struct Step {
    pub method: Seq<char>,
    pub params: Value,
}

impl DeepView for ControlStep {
    type V = Step;

    open spec fn deep_view(&self) -> Step {
        Step { method: self.method@, params: value_of(self.params) }
    }
}

impl ControlStep {
    pub fn new(method: &'static str, params: Json) -> (r: Self)
        ensures
            r.deep_view() == (Step { method: method@, params: value_of(params) }),
    {
        Self { method, params }
    }
}

/// A function the realtime model may call, with its fixed control mapping.
#[derive(Debug, Clone, Copy, PartialEq, Eq, Structural)]
pub enum VoiceTool {
    GetContext,
    ListThreads,
    ReadThread,
    FocusThread,
    SendToThread,
}

/// The name a tool is called by.
pub open spec fn tool_name(tool: VoiceTool) -> Seq<char> {
    match tool {
        VoiceTool::GetContext => "get_context"@,
        VoiceTool::ListThreads => "list_threads"@,
        VoiceTool::ReadThread => "read_thread"@,
        VoiceTool::FocusThread => "focus_thread"@,
        VoiceTool::SendToThread => "send_to_thread"@,
    }
}

/// What the model is told of a tool.
pub open spec fn tool_description(tool: VoiceTool) -> Seq<char> {
    match tool {
        VoiceTool::GetContext => "Read the current workspace layout: views, tabs, panes with their session id, label, group, renderer mode, and which pane is active. The `target` strings returned here are the `to` values other tools accept."@,
        VoiceTool::ListThreads => "List the chat threads known to the workspace, with id, workspace, title, and provider configuration. Read-only."@,
        VoiceTool::ReadThread => "Read a chat thread's transcript and context usage. Read-only; pass `to` to read a pane other than the active one."@,
        VoiceTool::FocusThread => "Focus a chat thread: select its session into a pane and raise the app window. Does not submit any input."@,
        VoiceTool::SendToThread => "Submit a message to a chat thread. Requires the human Allow grant in that thread's workspace, and CLI-owned panes are refused; a denial comes back as a speakable error. Never sends to a terminal pane."@,
    }
}

/// The argument a tool cannot do without.
pub open spec fn required_argument(tool: VoiceTool) -> Option<Seq<char>> {
    match tool {
        VoiceTool::FocusThread => Some("sessionId"@),
        VoiceTool::SendToThread => Some("message"@),
        _ => None,
    }
}

/// Whether a tool takes an argument of that name.
pub open spec fn takes(tool: VoiceTool, key: Seq<char>) -> bool {
    match tool {
        VoiceTool::GetContext | VoiceTool::ListThreads => false,
        _ => key == "to"@ || Some(key) == required_argument(tool),
    }
}

/// The control method a tool's first step runs.
pub open spec fn control_method(tool: VoiceTool) -> Seq<char> {
    match tool {
        VoiceTool::GetContext => "layout.state"@,
        VoiceTool::ListThreads => "chat.list"@,
        VoiceTool::ReadThread => "agent.read"@,
        VoiceTool::FocusThread => "chat.select"@,
        VoiceTool::SendToThread => "agent.send"@,
    }
}

/// The schema of one string property.
pub open spec fn string_property(description: Seq<char>) -> Value {
    Value::Object(seq![("type"@, Value::Text("string"@)), ("description"@, Value::Text(description))])
}

/// The schema of the pane target.
pub open spec fn target_schema() -> Value {
    string_property(
        "Pane target from get_context, for example `id:3`, `label:review`, or `active-pane`. Omit to use the active pane."@,
    )
}

/// The schema of a tool's properties.
pub open spec fn properties_schema(tool: VoiceTool) -> Value {
    match tool {
        VoiceTool::GetContext | VoiceTool::ListThreads => Value::Object(Seq::empty()),
        VoiceTool::ReadThread => Value::Object(seq![("to"@, target_schema())]),
        VoiceTool::FocusThread => Value::Object(
            seq![
                (
                    "sessionId"@,
                    string_property("Chat session id from get_context or list_threads."@),
                ),
                ("to"@, target_schema()),
            ],
        ),
        VoiceTool::SendToThread => Value::Object(
            seq![
                ("message"@, string_property("Message text to submit to the thread."@)),
                ("to"@, target_schema()),
            ],
        ),
    }
}

/// The schema of a tool's arguments: an object of exactly its properties.
pub open spec fn parameters_schema(tool: VoiceTool) -> Value {
    let head = seq![("type"@, Value::Text("object"@)), ("properties"@, properties_schema(tool))];
    let required = match required_argument(tool) {
        Some(key) => seq![("required"@, Value::Array(seq![Value::Text(key)]))],
        None => Seq::empty(),
    };
    Value::Object(head + required + seq![("additionalProperties"@, Value::Bool(false))])
}

/// The definition the realtime session is configured with.
pub open spec fn definition(tool: VoiceTool) -> Value {
    Value::Object(
        seq![
            ("type"@, Value::Text("function"@)),
            ("name"@, Value::Text(tool_name(tool))),
            ("description"@, Value::Text(tool_description(tool))),
            ("parameters"@, parameters_schema(tool)),
        ],
    )
}

/// The whole allowlist, in order.
pub open spec fn allowlist() -> Seq<VoiceTool> {
    seq![
        VoiceTool::GetContext,
        VoiceTool::ListThreads,
        VoiceTool::ReadThread,
        VoiceTool::FocusThread,
        VoiceTool::SendToThread,
    ]
}

pub fn tools() -> (r: Vec<VoiceTool>)
    ensures
        r@ == allowlist(),
{
    vec![
        VoiceTool::GetContext,
        VoiceTool::ListThreads,
        VoiceTool::ReadThread,
        VoiceTool::FocusThread,
        VoiceTool::SendToThread,
    ]
}

/// The schema of one string property.
fn property(description: &str) -> (r: Json)
    ensures
        value_of(r) == string_property(description@),
{
    let mut members: Vec<(String, Json)> = Vec::new();
    add_member(&mut members, "type", text("string"));
    add_member(&mut members, "description", text(description));
    proof {
        assert(all_members(members@) =~= seq![
            ("type"@, Value::Text("string"@)),
            ("description"@, Value::Text(description@)),
        ]);
    }
    Json::Object(members)
}

fn target_property() -> (r: Json)
    ensures
        value_of(r) == target_schema(),
{
    property(
        "Pane target from get_context, for example `id:3`, `label:review`, or `active-pane`. Omit to use the active pane.",
    )
}

impl VoiceTool {
    pub fn name(self) -> (r: &'static str)
        ensures
            r@ == tool_name(self),
    {
        match self {
            VoiceTool::GetContext => "get_context",
            VoiceTool::ListThreads => "list_threads",
            VoiceTool::ReadThread => "read_thread",
            VoiceTool::FocusThread => "focus_thread",
            VoiceTool::SendToThread => "send_to_thread",
        }
    }

    pub fn description(self) -> (r: &'static str)
        ensures
            r@ == tool_description(self),
    {
        match self {
            VoiceTool::GetContext => "Read the current workspace layout: views, tabs, panes with their session id, label, group, renderer mode, and which pane is active. The `target` strings returned here are the `to` values other tools accept.",
            VoiceTool::ListThreads => "List the chat threads known to the workspace, with id, workspace, title, and provider configuration. Read-only.",
            VoiceTool::ReadThread => "Read a chat thread's transcript and context usage. Read-only; pass `to` to read a pane other than the active one.",
            VoiceTool::FocusThread => "Focus a chat thread: select its session into a pane and raise the app window. Does not submit any input.",
            VoiceTool::SendToThread => "Submit a message to a chat thread. Requires the human Allow grant in that thread's workspace, and CLI-owned panes are refused; a denial comes back as a speakable error. Never sends to a terminal pane.",
        }
    }

    fn required(self) -> (r: Option<&'static str>)
        ensures
            r.deep_view() == required_argument(self),
    {
        match self {
            VoiceTool::FocusThread => Some("sessionId"),
            VoiceTool::SendToThread => Some("message"),
            _ => None,
        }
    }

    fn method(self) -> (r: &'static str)
        ensures
            r@ == control_method(self),
    {
        match self {
            VoiceTool::GetContext => "layout.state",
            VoiceTool::ListThreads => "chat.list",
            VoiceTool::ReadThread => "agent.read",
            VoiceTool::FocusThread => "chat.select",
            VoiceTool::SendToThread => "agent.send",
        }
    }

    fn properties(self) -> (r: Json)
        ensures
            value_of(r) == properties_schema(self),
    {
        let mut members: Vec<(String, Json)> = Vec::new();
        match self {
            VoiceTool::GetContext | VoiceTool::ListThreads => {},
            VoiceTool::ReadThread => {
                add_member(&mut members, "to", target_property());
            },
            VoiceTool::FocusThread => {
                let session: Json = property("Chat session id from get_context or list_threads.");
                add_member(&mut members, "sessionId", session);
                add_member(&mut members, "to", target_property());
            },
            VoiceTool::SendToThread => {
                let message: Json = property("Message text to submit to the thread.");
                add_member(&mut members, "message", message);
                add_member(&mut members, "to", target_property());
            },
        }
        proof {
            assert(all_members(members@) =~= properties_schema(self)->Object_0);
        }
        Json::Object(members)
    }

    /// The schema of this tool's arguments.
    pub fn parameters(self) -> (r: Json)
        ensures
            value_of(r) == parameters_schema(self),
    {
        let mut members: Vec<(String, Json)> = Vec::new();
        add_member(&mut members, "type", text("object"));
        add_member(&mut members, "properties", self.properties());
        match self.required() {
            Some(key) => {
                let mut keys: Vec<Json> = Vec::new();
                add_item(&mut keys, text(key));
                proof {
                    assert(all_items(keys@) =~= seq![Value::Text(key@)]);
                }
                add_member(&mut members, "required", Json::Array(keys));
            },
            None => {},
        }
        add_member(&mut members, "additionalProperties", Json::Bool(false));
        proof {
            assert(all_members(members@) =~= parameters_schema(self)->Object_0);
        }
        Json::Object(members)
    }

    /// The definition the realtime session is configured with.
    fn define(self) -> (r: Json)
        ensures
            value_of(r) == definition(self),
    {
        let mut members: Vec<(String, Json)> = Vec::new();
        add_member(&mut members, "type", text("function"));
        add_member(&mut members, "name", text(self.name()));
        add_member(&mut members, "description", text(self.description()));
        add_member(&mut members, "parameters", self.parameters());
        proof {
            assert(all_members(members@) =~= definition(self)->Object_0);
        }
        Json::Object(members)
    }
}

/// Function definitions for the allowlist, in order.
pub fn tool_definitions() -> (r: Vec<Json>)
    ensures
        r@.len() == allowlist().len(),
        forall|i: int| 0 <= i < r@.len() ==> value_of(#[trigger] r@[i]) == definition(
            allowlist()[i],
        ),
{
    let all: Vec<VoiceTool> = tools();
    let mut out: Vec<Json> = Vec::new();
    let mut i: usize = 0;
    while i < all.len()
        invariant
            all@ == allowlist(),
            i <= all@.len(),
            out@.len() == i,
            forall|k: int| 0 <= k < i ==> value_of(#[trigger] out@[k]) == definition(
                allowlist()[k],
            ),
        decreases all@.len() - i,
    {
        out.push(all[i].define());
        i += 1;
    }
    out
}

/// The first argument a tool does not take.
pub open spec fn first_unknown(tool: VoiceTool, args: Seq<(String, Json)>) -> Option<Seq<char>>
    decreases args.len(),
{
    if args.len() == 0 {
        None
    } else if !takes(tool, args[0].0@) {
        Some(args[0].0@)
    } else {
        first_unknown(tool, args.subrange(1, args.len() as int))
    }
}

/// The text of an argument that holds more than white space.
pub open spec fn nonempty_text(value: Option<Json>) -> Option<Seq<char>> {
    match value {
        Some(Json::Text(content)) if trimmed(content@).len() > 0 => Some(content@),
        _ => None,
    }
}

/// A key between backticks, in a message.
pub open spec fn quoted(before: Seq<char>, key: Seq<char>, after: Seq<char>) -> Seq<char> {
    before + key + after
}

/// The problem with an argument that has to be given.
pub open spec fn required_problem(args: Seq<(String, Json)>, key: Seq<char>) -> Option<Seq<char>> {
    if nonempty_text(lookup(args, key)) is Some {
        None
    } else if lookup(args, key) is Some {
        Some(quoted("`"@, key, "` must be a nonempty string"@))
    } else {
        Some(quoted("`"@, key, "` is required"@))
    }
}

/// The problem with a tool's arguments: an unknown one first, then a missing
/// or empty required one, then an empty target.
pub open spec fn problem(tool: VoiceTool, args: Seq<(String, Json)>) -> Option<Seq<char>> {
    let needed = match required_argument(tool) {
        Some(key) => required_problem(args, key),
        None => None,
    };
    if first_unknown(tool, args) is Some {
        Some(quoted("unknown argument `"@, first_unknown(tool, args)->0, "`"@))
    } else if needed is Some {
        needed
    } else if lookup(args, "to"@) is Some && nonempty_text(lookup(args, "to"@)) is None {
        Some("`to` must be a nonempty string"@)
    } else {
        None
    }
}

/// The params of a tool's control method: its required argument, then the
/// target when one was given.
pub open spec fn step_params(tool: VoiceTool, args: Seq<(String, Json)>) -> Value {
    let own = match required_argument(tool) {
        Some(key) => seq![(key, Value::Text(nonempty_text(lookup(args, key))->0))],
        None => Seq::empty(),
    };
    let target = match lookup(args, "to"@) {
        Some(value) => seq![("to"@, Value::Text(nonempty_text(Some(value))->0))],
        None => Seq::empty(),
    };
    Value::Object(own + target)
}

/// The ordered control steps of a call with sound arguments.
pub open spec fn steps_of(tool: VoiceTool, args: Seq<(String, Json)>) -> Seq<Step> {
    let first = seq![Step { method: control_method(tool), params: step_params(tool, args) }];
    if tool is FocusThread {
        first.push(Step { method: "window.activate"@, params: Value::Object(Seq::empty()) })
    } else {
        first
    }
}

fn quote(before: &str, key: &str, after: &str) -> (r: String)
    ensures
        r@ == quoted(before@, key@, after@),
{
    join3(before, key, after)
}

fn reject_unknown(tool: VoiceTool, args: &Vec<(String, Json)>) -> (r: Result<(), String>)
    ensures
        r is Ok <==> first_unknown(tool, args@) is None,
        r matches Err(message) ==> message@ == quoted(
            "unknown argument `"@,
            first_unknown(tool, args@)->0,
            "`"@,
        ),
{
    let mut i: usize = 0;
    proof {
        assert(args@.subrange(0, args@.len() as int) =~= args@);
    }
    while i < args.len()
        invariant
            i <= args@.len(),
            first_unknown(tool, args@) == first_unknown(
                tool,
                args@.subrange(i as int, args@.len() as int),
            ),
        decreases args@.len() - i,
    {
        let ghost rest = args@.subrange(i as int, args@.len() as int);
        let key: &str = args[i].0.as_str();
        let plain: bool = match tool {
            VoiceTool::GetContext | VoiceTool::ListThreads => false,
            _ => same_text(key, "to"),
        };
        let needed: bool = match tool.required() {
            Some(name) => same_text(key, name),
            None => false,
        };
        if !plain && !needed {
            return Err(quote("unknown argument `", key, "`"));
        }
        proof {
            assert(rest.subrange(1, rest.len() as int) =~= args@.subrange(
                i + 1,
                args@.len() as int,
            ));
        }
        i += 1;
    }
    Ok(())
}

/// The content of a text argument, unless it is blank.
fn content(value: &Json) -> (r: Option<String>)
    ensures
        r.deep_view() == nonempty_text(Some(*value)),
{
    match value {
        Json::Text(content) => {
            let bare: String = trim(content.as_str());
            if bare.as_str().is_empty() {
                None
            } else {
                Some(content.clone())
            }
        },
        _ => None,
    }
}

fn required_str(args: &Vec<(String, Json)>, key: &str) -> (r: Result<String, String>)
    ensures
        r is Ok <==> required_problem(args@, key@) is None,
        r matches Ok(found) ==> Some(found@) == nonempty_text(lookup(args@, key@)),
        r matches Err(message) ==> Some(message@) == required_problem(args@, key@),
{
    match get(args, key) {
        Some(value) => match content(value) {
            Some(found) => Ok(found),
            None => Err(quote("`", key, "` must be a nonempty string")),
        },
        None => Err(quote("`", key, "` is required")),
    }
}

/// Maps a tool's arguments to the ordered control steps to run.
pub fn plan(tool: VoiceTool, args: &Vec<(String, Json)>) -> (r: Result<Vec<ControlStep>, String>)
    ensures
        r is Ok <==> problem(tool, args@) is None,
        r matches Ok(steps) ==> steps.deep_view() == steps_of(tool, args@),
        r matches Err(message) ==> Some(message@) == problem(tool, args@),
{
    match reject_unknown(tool, args) {
        Err(message) => return Err(message),
        Ok(_) => {},
    }
    let mut params: Vec<(String, Json)> = Vec::new();
    match tool.required() {
        Some(key) => {
            match required_str(args, key) {
                Err(message) => return Err(message),
                Ok(value) => {
                    add_member(&mut params, key, Json::Text(value));
                },
            }
        },
        None => {},
    }
    match get(args, "to") {
        Some(value) => {
            match content(value) {
                Some(target) => {
                    add_member(&mut params, "to", Json::Text(target));
                },
                None => return Err("`to` must be a nonempty string".to_owned()),
            }
        },
        None => {},
    }
    proof {
        assert(all_members(params@) =~= step_params(tool, args@)->Object_0);
    }
    let mut steps: Vec<ControlStep> = Vec::new();
    steps.push(ControlStep::new(tool.method(), Json::Object(params)));
    if tool == VoiceTool::FocusThread {
        let nothing: Vec<(String, Json)> = Vec::new();
        proof {
            assert(all_members(nothing@) =~= Seq::<(Seq<char>, Value)>::empty());
        }
        steps.push(ControlStep::new("window.activate", Json::Object(nothing)));
    }
    proof {
        assert(steps.deep_view() =~= steps_of(tool, args@));
    }
    Ok(steps)
}

/// The tool of that name, if it is on the allowlist.
pub open spec fn listed(name: Seq<char>) -> Option<VoiceTool> {
    if name == "get_context"@ {
        Some(VoiceTool::GetContext)
    } else if name == "list_threads"@ {
        Some(VoiceTool::ListThreads)
    } else if name == "read_thread"@ {
        Some(VoiceTool::ReadThread)
    } else if name == "focus_thread"@ {
        Some(VoiceTool::FocusThread)
    } else if name == "send_to_thread"@ {
        Some(VoiceTool::SendToThread)
    } else {
        None
    }
}

pub fn find_tool(name: &str) -> (r: Option<VoiceTool>)
    ensures
        r == listed(name@),
{
    if same_text(name, "get_context") {
        Some(VoiceTool::GetContext)
    } else if same_text(name, "list_threads") {
        Some(VoiceTool::ListThreads)
    } else if same_text(name, "read_thread") {
        Some(VoiceTool::ReadThread)
    } else if same_text(name, "focus_thread") {
        Some(VoiceTool::FocusThread)
    } else if same_text(name, "send_to_thread") {
        Some(VoiceTool::SendToThread)
    } else {
        None
    }
}

/// What a refused call is answered, or `None` where it may run.
pub open spec fn refusal(name: Seq<char>, args: Seq<(String, Json)>) -> Option<Seq<char>> {
    match listed(name) {
        None => Some(
            quoted(
                "unknown voice tool `"@,
                name,
                "`; available: get_context, list_threads, read_thread, focus_thread, send_to_thread"@,
            ),
        ),
        Some(tool) => match problem(tool, args) {
            None => None,
            Some(reason) => Some(
                quoted("tool `"@, name, "` rejected its arguments: "@) + reason,
            ),
        },
    }
}

/// Decides one tool call before anything runs: the steps to run, or the
/// speakable refusal.
pub fn call_plan(name: &str, args: &Vec<(String, Json)>) -> (r: Result<Vec<ControlStep>, String>)
    ensures
        r is Ok <==> refusal(name@, args@) is None,
        r matches Err(message) ==> Some(message@) == refusal(name@, args@),
        r matches Ok(steps) ==> listed(name@) is Some && steps.deep_view() == steps_of(
            listed(name@)->0,
            args@,
        ),
{
    match find_tool(name) {
        None => Err(
            quote(
                "unknown voice tool `",
                name,
                "`; available: get_context, list_threads, read_thread, focus_thread, send_to_thread",
            ),
        ),
        Some(tool) => match plan(tool, args) {
            Ok(steps) => Ok(steps),
            Err(reason) => {
                let mut message: String = quote("tool `", name, "` rejected its arguments: ");
                message.append(reason.as_str());
                Err(message)
            },
        },
    }
}

/// A call's steps as they run.
pub struct StepRun {
    steps: Vec<ControlStep>,
    at: usize,
    last: Json,
    failed: Option<String>,
}

/// What a run of steps is.
#[verifier::ext_equal]
pub struct Progress {
    /// The steps that have yet to run.
    pub left: Seq<Step>,
    /// What the last step answered.
    pub last: Value,
    pub failed: Option<Seq<char>>,
}

impl Progress {
    /// The run after its next step was answered: a failure ends it.
    pub open spec fn answered(self, reply: Result<Value, Seq<char>>) -> Progress {
        match reply {
            Ok(value) => Progress { left: self.left.skip(1), last: value, ..self },
            Err(error) => Progress { left: Seq::empty(), failed: Some(error), ..self },
        }
    }
}

/// A reply without its representation.
pub open spec fn reply_of(reply: Result<Json, String>) -> Result<Value, Seq<char>> {
    match reply {
        Ok(value) => Ok(value_of(value)),
        Err(error) => Err(error@),
    }
}

impl View for StepRun {
    type V = Progress;

    closed spec fn view(&self) -> Progress {
        Progress {
            left: self.steps.deep_view().skip(self.at as int),
            last: value_of(self.last),
            failed: self.failed.deep_view(),
        }
    }
}

impl StepRun {
    /// No step was skipped.
    pub closed spec fn wf(&self) -> bool {
        self.at <= self.steps@.len()
    }

    pub fn new(steps: Vec<ControlStep>) -> (r: Self)
        ensures
            r.wf(),
            r@ == (Progress { left: steps.deep_view(), last: Value::Null, failed: None }),
    {
        let r: StepRun = StepRun { steps, at: 0, last: Json::Null, failed: None };
        proof {
            assert(r.steps.deep_view().skip(0) =~= r.steps.deep_view());
        }
        r
    }

    /// The step to run next.
    pub fn due(&self) -> (r: Option<&ControlStep>)
        requires
            self.wf(),
        ensures
            r is Some <==> self@.left.len() > 0,
            r matches Some(step) ==> step.deep_view() == self@.left[0],
    {
        if self.at < self.steps.len() {
            Some(&self.steps[self.at])
        } else {
            None
        }
    }

    /// Takes over what the due step answered.
    pub fn answer(&mut self, reply: Result<Json, String>)
        requires
            old(self).wf(),
            old(self)@.left.len() > 0,
        ensures
            final(self).wf(),
            final(self)@ == old(self)@.answered(reply_of(reply)),
    {
        let ghost before = self@;
        let count: usize = self.steps.len();
        proof {
            assert(before.left.len() == self.steps@.len() - self.at);
        }
        match reply {
            Ok(value) => {
                self.at += 1;
                self.last = value;
                proof {
                    assert(self@.left =~= before.left.skip(1));
                }
            },
            Err(error) => {
                self.at = count;
                self.failed = Some(error);
                proof {
                    assert(self@.left =~= Seq::<Step>::empty());
                }
            },
        }
    }

    /// What the run came to: the first failure, else the last step's answer.
    pub fn result(self) -> (r: Result<Json, String>)
        ensures
            reply_of(r) == (match self@.failed {
                Some(error) => Err(error),
                None => Ok(self@.last),
            }),
    {
        match self.failed {
            Some(error) => Err(error),
            None => Ok(self.last),
        }
    }
}

/// Steps run in order, and a failed one ends the run with its error: no later
/// step is due, and nothing takes the failure back.
pub proof fn a_failed_step_ends_the_run(run: Progress, error: Seq<char>)
    ensures
        run.answered(Err(error)).left.len() == 0,
        run.answered(Err(error)).failed == Some(error),
{
}

/// How a call that was allowed to run came back.
pub enum CallFate {
    /// The workspace no longer takes calls.
    Unsent,
    /// The workspace went away before it replied.
    Dropped,
    /// The workspace ran the steps.
    Replied(Result<Json, String>),
}

/// What the model hears of a call.
pub enum ToolOutput {
    Value(Json),
    Error(String),
}

/// Turns the fate of a call into a tool result; no fate ends the session.
pub fn tool_output(fate: CallFate) -> (r: ToolOutput)
    ensures
        fate is Unsent ==> r is Error && r->Error_0@ == "workspace UI is not available"@,
        fate is Dropped ==> r is Error && r->Error_0@ == "workspace UI dropped the tool call"@,
        fate matches CallFate::Replied(Ok(value)) ==> r == ToolOutput::Value(value),
        fate matches CallFate::Replied(Err(error)) ==> r == ToolOutput::Error(error),
{
    match fate {
        CallFate::Unsent => ToolOutput::Error("workspace UI is not available".to_owned()),
        CallFate::Dropped => ToolOutput::Error("workspace UI dropped the tool call".to_owned()),
        CallFate::Replied(Ok(value)) => ToolOutput::Value(value),
        CallFate::Replied(Err(error)) => ToolOutput::Error(error),
    }
}

/// Each tool is found under its own name, so no two tools share one.
pub proof fn every_tool_is_found_by_its_name(tool: VoiceTool)
    ensures
        listed(tool_name(tool)) == Some(tool),
{
    reveal_strlit("get_context");
    reveal_strlit("list_threads");
    reveal_strlit("read_thread");
    reveal_strlit("focus_thread");
    reveal_strlit("send_to_thread");
    assert("get_context"@.len() == 11 && "read_thread"@.len() == 11);
    assert("get_context"@[0] == 'g' && "read_thread"@[0] == 'r');
    assert("list_threads"@.len() == 12 && "focus_thread"@.len() == 12);
    assert("list_threads"@[0] == 'l' && "focus_thread"@[0] == 'f');
    assert("send_to_thread"@.len() == 14);
}

/// Only the five listed control methods are reachable: a call either is
/// refused before anything runs, or runs its tool's method first and, for
/// focusing, raises the window after it.
pub proof fn only_listed_methods_are_reachable(
    name: Seq<char>,
    args: Seq<(String, Json)>,
    i: int,
)
    requires
        refusal(name, args) is None,
        0 <= i < steps_of(listed(name)->0, args).len(),
    ensures
        listed(name) is Some,
        steps_of(listed(name)->0, args)[i].method == (if i == 0 {
            control_method(listed(name)->0)
        } else {
            "window.activate"@
        }),
        i > 0 ==> listed(name)->0 is FocusThread,
{
}

/// A call with an argument that its tool does not take never runs.
pub proof fn foreign_arguments_are_refused(
    tool: VoiceTool,
    args: Seq<(String, Json)>,
    i: int,
)
    requires
        0 <= i < args.len(),
        !takes(tool, args[i].0@),
    ensures
        problem(tool, args) is Some,
    decreases args.len(),
{
    let rest = args.subrange(1, args.len() as int);
    if takes(tool, args[0].0@) {
        assert(rest[i - 1] == args[i]);
        foreign_arguments_are_refused(tool, rest, i - 1);
        assert(first_unknown(tool, rest) is Some) by {
            unknown_is_found(tool, rest, i - 1);
        }
    }
}

/// An argument that a tool does not take is noticed.
proof fn unknown_is_found(tool: VoiceTool, args: Seq<(String, Json)>, i: int)
    requires
        0 <= i < args.len(),
        !takes(tool, args[i].0@),
    ensures
        first_unknown(tool, args) is Some,
    decreases args.len(),
{
    let rest = args.subrange(1, args.len() as int);
    if takes(tool, args[0].0@) {
        assert(rest[i - 1] == args[i]);
        unknown_is_found(tool, rest, i - 1);
    }
}

} // verus!
