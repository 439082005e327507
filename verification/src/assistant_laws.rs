//! What holds of the voice session as the workspace sees it, of what the
//! assistants may run, and of the browser they share.
use vstd::prelude::*;
use crate::browser_agent::{
    browser_tabs, close_hidden_tab, listed as listed_tabs, opened_reply, page_place, planned,
    served_here, starts_browser_control, state_value, without_tab, BrowserAction, BrowserHost,
    BrowserPlan, PageState, RightSurface,
};
use crate::json::{lookup, Json, Value};
use crate::terminal_panel::ChatHost;
use crate::text::{trimmed, white_space};
use crate::text_laws::{a_trimmed_text_is_empty_only_where_blank, trimming_is_settled};
use crate::voice_actions::{
    arguments_schema, backend_functions, described, fault, first_fault, first_missing, fits,
    function_schema, kind_of, kind_word, needed, objection, offered, property_schemas,
    required_names, Field, Kind, Row,
};
use crate::voice_session::{
    connect_plan, ended, gate_after_mute, mute_toggled, press_in, pressed, resolve_backend, updated,
    usable_key, voice_config, voice_state, Backend, Endpoint, Gate, Shown, Told, Voice, VoiceConfig,
    VoicePhase, VoiceStartSnapshot, VoiceState, VoiceStatus, VoiceUpdate,
};
use crate::voice_tools::{
    allowlist, definition, first_unknown, listed, parameters_schema, problem, properties_schema,
    refusal, required_argument, steps_of, takes, tool_name, tool_output, CallFate, Progress,
    ToolOutput, VoiceTool,
};

verus! {

/// A press stops a session that connects, listens, thinks or speaks, and
/// starts a fresh one everywhere else.
pub proof fn a_press_stops_what_runs(state: VoiceState)
    ensures
        ({
            let phase = state.shown.phase;
            let runs = state.alive && (phase is Connecting || phase is Listening || phase
                is Thinking || phase is Speaking);
            &&& press_in(Some(state)) is Stop <==> runs
            &&& runs ==> pressed(Some(state)) is None
            &&& !runs ==> pressed(Some(state)) is Some && pressed(Some(state))->0.alive && pressed(
                Some(state),
            )->0.shown.phase is Connecting && pressed(Some(state))->0.shown.error is None
                && !pressed(Some(state))->0.shown.mic && !pressed(Some(state))->0.shown.muted
        }),
        press_in(None) is Connect,
        pressed(None) is Some && pressed(None)->0.alive && pressed(None)->0.shown.phase
            is Connecting,
{
}

/// A mute request flips the flag of a session whose gate is open, moves the
/// gate the same way where a handle is held, and does nothing to any other.
pub proof fn a_mute_closes_the_gate(state: VoiceState)
    ensures
        ({
            let phase = state.shown.phase;
            let open = state.alive && (phase is Listening || phase is Thinking || phase
                is Speaking);
            let after = mute_toggled(Some(state));
            let gate = gate_after_mute(Some(state));
            &&& after is Some
            &&& open ==> after->0.shown.muted == !state.shown.muted
            &&& open ==> after->0 == (VoiceState {
                shown: Shown { muted: after->0.shown.muted, ..state.shown },
                ..state
            })
            &&& !open ==> after == Some(state) && gate is Leave
            &&& open && state.shown.mic && !state.shown.muted ==> gate is Close
            &&& open && state.shown.mic && state.shown.muted ==> gate is Open
            &&& open && !state.shown.mic ==> gate is Leave
        }),
        mute_toggled(None) is None && gate_after_mute(None) is Leave,
{
}

/// What a session says is shown: a phase clears the last error, a failure and
/// a notice stay with their words, and a handle is held from then on.
pub proof fn what_a_session_says_is_shown(
    shown: Shown,
    phase: VoicePhase,
    message: Seq<char>,
)
    ensures
        updated(shown, Told::Phase(phase)).phase == phase,
        updated(shown, Told::Phase(phase)).error is None,
        updated(shown, Told::Failure(message)).phase is Error,
        updated(shown, Told::Failure(message)).error == Some(message),
        updated(shown, Told::Notify(message)).phase is Error,
        updated(shown, Told::Notify(message)).error == Some(message),
        updated(shown, Told::Mic).mic,
        updated(shown, Told::Mic).phase == shown.phase && updated(shown, Told::Mic).error
            == shown.error,
        updated(shown, Told::Phase(phase)).muted == shown.muted && updated(
            shown,
            Told::Phase(phase),
        ).mic == shown.mic,
{
}

/// A session that ended while it ran says so; one that had failed keeps its
/// words.
pub proof fn an_ended_session_says_so(shown: Shown)
    ensures
        shown.phase is Connecting || shown.phase is Listening || shown.phase is Thinking
            || shown.phase is Speaking ==> ended(shown).phase is Error && ended(shown).error
            == Some("the voice session ended"@),
        shown.phase is Error || shown.phase is Idle ==> ended(shown).phase == shown.phase && ended(
            shown,
        ).error == shown.error,
        !ended(shown).mic && !ended(shown).muted,
{
}

/// A late handle of a muted session is closed at once, and no other update
/// opens or closes it.
pub proof fn a_late_handle_keeps_the_mute(voice: &mut Voice, update: VoiceUpdate, gate: Gate)
    requires
        call_ensures(Voice::voice_update, (voice, update), gate),
        voice_state(*old(voice)) is Some,
    ensures
        update is Mic && voice_state(*old(voice))->0.shown.muted ==> gate is Close,
        update is Mic && !voice_state(*old(voice))->0.shown.muted ==> gate is Leave,
        !(update is Mic) ==> gate is Leave,
        voice_state(*final(voice)) is Some,
        voice_state(*final(voice))->0.alive == voice_state(*old(voice))->0.alive,
{
}

/// A session that stopped is no longer alive, so that the next press connects.
pub proof fn a_stopped_session_reconnects(voice: &mut Voice, nothing: ())
    requires
        call_ensures(Voice::voice_stopped, (voice,), nothing),
        voice_state(*old(voice)) is Some,
    ensures
        voice_state(*final(voice)) is Some,
        !voice_state(*final(voice))->0.alive,
        press_in(voice_state(*final(voice))) is Connect,
{
}

/// The meter shows the microphone exactly where it is held and not muted.
pub proof fn a_muted_meter_is_flat(status: &VoiceStatus, open: bool)
    requires
        call_ensures(VoiceStatus::meter_open, (status,), open),
    ensures
        open <==> status.mic && !status.muted,
{
}

/// A key is usable exactly where it holds more than white space, and is used
/// without what surrounds it.
pub proof fn a_blank_key_is_no_key(value: Seq<char>)
    ensures
        usable_key(None) is None,
        usable_key(Some(value)) is Some <==> (exists|i: int|
            0 <= i < value.len() && !white_space(#[trigger] value[i])),
        usable_key(Some(value)) matches Some(key) ==> key == trimmed(value) && trimmed(key) == key,
{
    a_trimmed_text_is_empty_only_where_blank(value);
    trimming_is_settled(value);
}

/// The account pool wins wherever its key is usable; the stock endpoint is
/// next; without either there is no voice, and the user is told which keys it
/// takes.
pub proof fn the_account_pool_comes_first(
    cpa_key: Option<&str>,
    openai_key: Option<&str>,
    snapshot: &VoiceStartSnapshot,
    r: Result<Endpoint, String>,
)
    requires
        call_ensures(resolve_backend, (cpa_key, openai_key, snapshot), r),
    ensures
        usable_key(cpa_key.deep_view()) is Some ==> r is Ok && r->Ok_0.backend is Cpa
            && r->Ok_0.url@ == snapshot.endpoint@,
        usable_key(cpa_key.deep_view()) is None && usable_key(openai_key.deep_view()) is Some
            ==> r is Ok && r->Ok_0.backend is OpenAi,
        usable_key(cpa_key.deep_view()) is None && usable_key(openai_key.deep_view()) is None
            ==> r is Err && r->Err_0@ == "set CPA_API_KEY or OPENAI_API_KEY to use voice"@,
{
    if r is Ok {
        assert(r->Ok_0@.backend == r->Ok_0.backend);
    }
}

/// A dial is made with the key of its own backend, as it reads at that moment,
/// and goes to the pool's endpoint or to the stock one.
pub proof fn a_dial_uses_its_own_key(
    endpoint: &Endpoint,
    cpa_key: Option<&str>,
    openai_key: Option<&str>,
    snapshot: &VoiceStartSnapshot,
    r: Option<VoiceConfig>,
)
    requires
        call_ensures(connect_plan, (endpoint, cpa_key, openai_key, snapshot), r),
    ensures
        endpoint.backend is Cpa ==> {
            &&& r is Some <==> usable_key(cpa_key.deep_view()) is Some
            &&& r is Some ==> Some(r->0.key@) == usable_key(cpa_key.deep_view())
                && r->0.endpoint.deep_view() == Some(endpoint.url@)
        },
        endpoint.backend is OpenAi ==> {
            &&& r is Some <==> usable_key(openai_key.deep_view()) is Some
            &&& r is Some ==> Some(r->0.key@) == usable_key(openai_key.deep_view())
                && r->0.endpoint is None
        },
        r is Some ==> r->0.model@ == snapshot.model@ && r->0.session@ == snapshot.session@,
{
}

/// The settings of a dial are those that were frozen, with the key as given.
pub proof fn a_dial_uses_the_frozen_settings(
    backend: Backend,
    endpoint: &str,
    key: String,
    snapshot: &VoiceStartSnapshot,
    r: VoiceConfig,
)
    requires
        call_ensures(voice_config, (backend, endpoint, key, snapshot), r),
    ensures
        r.key@ == key@ && r.model@ == snapshot.model@ && r.session@ == snapshot.session@,
        backend is Cpa ==> r.endpoint.deep_view() == Some(endpoint@),
        backend is OpenAi ==> r.endpoint is None,
{
}

/// The kind of an argument is that of the first field of its name.
pub proof fn a_kind_is_its_fields(fields: Seq<Field>, name: Seq<char>)
    ensures
        kind_of(fields, name) is None <==> (forall|i: int|
            0 <= i < fields.len() ==> (#[trigger] fields[i]).name@ != name),
        kind_of(fields, name) matches Some(kind) ==> exists|i: int|
            0 <= i < fields.len() && (#[trigger] fields[i]).name@ == name && fields[i].kind == kind,
    decreases fields.len(),
{
    if fields.len() > 0 && fields[0].name@ != name {
        let rest = fields.subrange(1, fields.len() as int);
        a_kind_is_its_fields(rest, name);
        assert forall|i: int| 0 <= i < rest.len() implies rest[i] == #[trigger] fields[i + 1] by {}
        if kind_of(rest, name) is None {
            assert forall|i: int| 0 <= i < fields.len() implies (#[trigger] fields[i]).name@ != name by {
                if i > 0 {
                    assert(rest[i - 1] == fields[i]);
                }
            }
        } else {
            let i = choose|i: int|
                0 <= i < rest.len() && (#[trigger] rest[i]).name@ == name && rest[i].kind
                    == kind_of(rest, name)->0;
            assert(fields[i + 1].name@ == name);
        }
    } else if fields.len() > 0 {
        assert(fields[0].kind == kind_of(fields, name)->0);
    }
}

/// A value fits an argument exactly where it is of its kind; a text holds more
/// than white space, but for a message's text and a directory.
pub proof fn a_value_fits_its_kind(name: Seq<char>, value: Json)
    ensures
        fits(name, Kind::Boolean, value) <==> value is Bool,
        fits(name, Kind::Object, value) <==> value is Object,
        fits(name, Kind::Array, value) <==> value is Array,
        fits(name, Kind::Integer, value) <==> value is Unsigned,
        fits(name, Kind::Text, value) ==> value is Text,
        value matches Json::Text(content) ==> (fits(name, Kind::Text, value) <==> name == "text"@
            || name == "directory"@ || trimmed(content@).len() > 0),
{
}

/// Arguments are taken exactly where they are an object that gives every field
/// that is needed, names no other field, and gives each in its kind.
pub proof fn arguments_are_taken_where_they_fit(fields: Seq<Field>, value: Json)
    ensures
        objection(fields, value) is None <==> {
            &&& value is Object
            &&& forall|i: int|
                0 <= i < fields.len() && !(#[trigger] fields[i]).optional ==> lookup(
                    value->Object_0@,
                    fields[i].name@,
                ) is Some
            &&& forall|i: int|
                0 <= i < value->Object_0@.len() ==> kind_of(
                    fields,
                    (#[trigger] value->Object_0@[i]).0@,
                ) is Some && fits(
                    value->Object_0@[i].0@,
                    kind_of(fields, value->Object_0@[i].0@)->0,
                    value->Object_0@[i].1,
                )
        },
{
    if let Json::Object(args) = value {
        missing_is_found(fields, args@);
        faults_are_found(fields, args@);
    }
}

proof fn missing_is_found(fields: Seq<Field>, args: Seq<(String, Json)>)
    ensures
        first_missing(fields, args) is None <==> (forall|i: int|
            0 <= i < fields.len() && !(#[trigger] fields[i]).optional ==> lookup(
                args,
                fields[i].name@,
            ) is Some),
    decreases fields.len(),
{
    if fields.len() > 0 {
        let rest = fields.subrange(1, fields.len() as int);
        missing_is_found(rest, args);
        assert forall|i: int| 0 <= i < rest.len() implies rest[i] == #[trigger] fields[i + 1] by {}
        if first_missing(fields, args) is None {
            assert forall|i: int|
                0 <= i < fields.len() && !(#[trigger] fields[i]).optional implies lookup(
                args,
                fields[i].name@,
            ) is Some by {
                if i > 0 {
                    assert(rest[i - 1] == fields[i]);
                }
            }
        } else if first_missing(rest, args) is Some {
            let i = choose|i: int|
                0 <= i < rest.len() && !(#[trigger] rest[i]).optional && lookup(
                    args,
                    rest[i].name@,
                ) is None;
            assert(fields[i + 1] == rest[i]);
        }
    }
}

proof fn faults_are_found(fields: Seq<Field>, args: Seq<(String, Json)>)
    ensures
        first_fault(fields, args) is None <==> (forall|i: int|
            0 <= i < args.len() ==> kind_of(fields, (#[trigger] args[i]).0@) is Some && fits(
                args[i].0@,
                kind_of(fields, args[i].0@)->0,
                args[i].1,
            )),
    decreases args.len(),
{
    if args.len() > 0 {
        let rest = args.subrange(1, args.len() as int);
        faults_are_found(fields, rest);
        assert forall|i: int| 0 <= i < rest.len() implies rest[i] == #[trigger] args[i + 1] by {}
        if first_fault(fields, args) is None {
            assert forall|i: int| 0 <= i < args.len() implies kind_of(
                fields,
                (#[trigger] args[i]).0@,
            ) is Some && fits(args[i].0@, kind_of(fields, args[i].0@)->0, args[i].1) by {
                if i > 0 {
                    assert(rest[i - 1] == args[i]);
                }
            }
        } else if fault(fields, args[0].0@, args[0].1) is None {
            let i = choose|i: int|
                0 <= i < rest.len() && !(kind_of(fields, (#[trigger] rest[i]).0@) is Some && fits(
                    rest[i].0@,
                    kind_of(fields, rest[i].0@)->0,
                    rest[i].1,
                ));
            assert(args[i + 1] == rest[i]);
        }
    }
}

/// An objection says what is wrong: that something is missing before anything
/// else, then what is unknown or of another kind.
pub proof fn an_objection_names_the_argument(
    fields: Seq<Field>,
    name: Seq<char>,
    value: Json,
)
    ensures
        kind_of(fields, name) is None ==> fault(fields, name, value) == Some(
            "Unknown argument: "@ + name,
        ),
        kind_of(fields, name) matches Some(kind) ==> !fits(name, kind, value) ==> fault(
            fields,
            name,
            value,
        ) == Some("Invalid \""@ + kind_word(kind) + "\" argument: "@ + name),
        !(value is Object) ==> objection(fields, value) == Some("Arguments must be an object"@),
        value is Object && first_missing(fields, value->Object_0@) is Some ==> objection(
            fields,
            value,
        ) == Some("Missing argument: \""@ + first_missing(fields, value->Object_0@)->0 + "\""@),
        kind_word(Kind::Text) == "string"@ && kind_word(Kind::Boolean) == "boolean"@,
        kind_word(Kind::Object) == "object"@ && kind_word(Kind::Array) == "array"@,
        kind_word(Kind::Integer) == "integer"@,
{
}

/// The schema lists each field with its kind, in order, and requires exactly
/// those that are needed; nothing else may be given.
pub proof fn the_schema_is_the_fields(fields: Seq<Field>, i: int)
    requires
        0 <= i < fields.len(),
    ensures
        property_schemas(fields).len() == fields.len(),
        property_schemas(fields)[i].0 == fields[i].name@,
        property_schemas(fields)[i].1 == Value::Object(
            seq![("type"@, Value::Text(kind_word(fields[i].kind)))],
        ),
        required_names(fields).contains(Value::Text(fields[i].name@)) <==> (exists|j: int|
            0 <= j < fields.len() && !(#[trigger] fields[j]).optional && fields[j].name@
                == fields[i].name@),
        arguments_schema(fields) matches Value::Object(members) && members.contains(
            ("additionalProperties"@, Value::Bool(false)),
        ) && members.contains(("properties"@, Value::Object(property_schemas(fields))))
            && members.contains(("required"@, Value::Array(required_names(fields)))),
{
    needed_names_are_required(fields, fields[i].name@);
    let members = seq![
        ("type"@, Value::Text("object"@)),
        ("properties"@, Value::Object(property_schemas(fields))),
        ("required"@, Value::Array(required_names(fields))),
        ("additionalProperties"@, Value::Bool(false)),
    ];
    assert(members[3] == ("additionalProperties"@, Value::Bool(false)));
    assert(members[1] == ("properties"@, Value::Object(property_schemas(fields))));
    assert(members[2] == ("required"@, Value::Array(required_names(fields))));
}

proof fn needed_names_are_required(fields: Seq<Field>, name: Seq<char>)
    ensures
        required_names(fields).contains(Value::Text(name)) <==> (exists|j: int|
            0 <= j < fields.len() && !(#[trigger] fields[j]).optional && fields[j].name@ == name),
    decreases fields.len(),
{
    if fields.len() > 0 {
        let front = fields.drop_last();
        needed_names_are_required(front, name);
        let before = required_names(front);
        let all = required_names(fields);
        assert forall|j: int| 0 <= j < front.len() implies front[j] == #[trigger] fields[j] by {}
        assert(fields[fields.len() - 1] == fields.last());
        if before.contains(Value::Text(name)) {
            assert(all[before.index_of(Value::Text(name))] == Value::Text(name));
            let j = choose|j: int|
                0 <= j < front.len() && !(#[trigger] front[j]).optional && front[j].name@ == name;
            assert(fields[j] == front[j]);
        }
        if !fields.last().optional && fields.last().name@ == name {
            assert(all[before.len() as int] == Value::Text(name));
        }
        if all.contains(Value::Text(name)) && !before.contains(Value::Text(name)) {
            let k = all.index_of(Value::Text(name));
            if k < before.len() {
                assert(before[k] == Value::Text(name));
            }
        }
        if exists|j: int|
            0 <= j < fields.len() && !(#[trigger] fields[j]).optional && fields[j].name@ == name {
            let j = choose|j: int|
                0 <= j < fields.len() && !(#[trigger] fields[j]).optional && fields[j].name@ == name;
            if j < front.len() {
                assert(front[j] == fields[j]);
            }
        }
    }
}

/// The model is told whether an action needs a confirmation.
pub proof fn a_confirmation_is_announced(row: Row)
    ensures
        described(row) matches Value::Object(members) && members.contains(
            ("requiresConfirmation"@, Value::Bool(row.confirm)),
        ) && members.contains(("name"@, Value::Text(row.name@))) && members.contains(
            ("parameters"@, arguments_schema(row.fields)),
        ),
{
    if let Value::Object(members) = described(row) {
        assert(members[0] == ("name"@, Value::Text(row.name@)));
        assert(members[2] == ("parameters"@, arguments_schema(row.fields)));
        assert(members[3] == ("requiresConfirmation"@, Value::Bool(row.confirm)));
    }
}

/// A voice tool runs the one control method it is for. Reading never sends,
/// and only sending submits a message.
pub proof fn a_tool_runs_its_own_method(tool: VoiceTool, args: Seq<(String, Json)>)
    ensures
        steps_of(tool, args).len() == (if tool is FocusThread {
            2nat
        } else {
            1nat
        }),
        tool is GetContext ==> steps_of(tool, args)[0].method == "layout.state"@,
        tool is ListThreads ==> steps_of(tool, args)[0].method == "chat.list"@,
        tool is ReadThread ==> steps_of(tool, args)[0].method == "agent.read"@,
        tool is FocusThread ==> steps_of(tool, args)[0].method == "chat.select"@ && steps_of(
            tool,
            args,
        )[1].method == "window.activate"@,
        tool is SendToThread ==> steps_of(tool, args)[0].method == "agent.send"@,
{
}

/// A message is submitted as it was given, to the pane that was named, and to
/// the active one where none was.
pub proof fn a_message_is_submitted_as_given(
    args: Seq<(String, Json)>,
    message: String,
    to: String,
)
    requires
        lookup(args, "message"@) == Some(Json::Text(message)),
        trimmed(message@).len() > 0,
        trimmed(to@).len() > 0,
    ensures
        lookup(args, "to"@) is None ==> steps_of(VoiceTool::SendToThread, args)[0].params
            == Value::Object(seq![("message"@, Value::Text(message@))]),
        lookup(args, "to"@) == Some(Json::Text(to)) ==> steps_of(
            VoiceTool::SendToThread,
            args,
        )[0].params == Value::Object(
            seq![("message"@, Value::Text(message@)), ("to"@, Value::Text(to@))],
        ),
{
    let own = seq![("message"@, Value::Text(message@))];
    assert(own + Seq::<(Seq<char>, Value)>::empty() =~= own);
    assert(own + seq![("to"@, Value::Text(to@))] =~= seq![
        ("message"@, Value::Text(message@)),
        ("to"@, Value::Text(to@)),
    ]);
}

/// A call is refused where its tool does not exist, where it names an argument
/// the tool does not take, where the one it needs is missing or blank, and
/// where a target is blank; and nowhere else.
pub proof fn a_call_is_refused_for_a_reason(tool: VoiceTool, args: Seq<(String, Json)>)
    ensures
        problem(tool, args) is None <==> {
            &&& forall|i: int| 0 <= i < args.len() ==> takes(tool, (#[trigger] args[i]).0@)
            &&& required_argument(tool) matches Some(key) ==> says_something(lookup(args, key))
            &&& lookup(args, "to"@) is Some ==> says_something(lookup(args, "to"@))
        },
        tool is FocusThread ==> required_argument(tool) == Some("sessionId"@),
        tool is SendToThread ==> required_argument(tool) == Some("message"@),
        tool is GetContext || tool is ListThreads || tool is ReadThread ==> required_argument(tool)
            is None,
{
    unknown_arguments_are_found(tool, args);
}

/// It is a text that holds more than white space.
pub open spec fn says_something(value: Option<Json>) -> bool {
    value matches Some(Json::Text(content)) && trimmed(content@).len() > 0
}

proof fn unknown_arguments_are_found(tool: VoiceTool, args: Seq<(String, Json)>)
    ensures
        first_unknown(tool, args) is None <==> (forall|i: int|
            0 <= i < args.len() ==> takes(tool, (#[trigger] args[i]).0@)),
    decreases args.len(),
{
    if args.len() > 0 {
        let rest = args.subrange(1, args.len() as int);
        unknown_arguments_are_found(tool, rest);
        assert forall|i: int| 0 <= i < rest.len() implies rest[i] == #[trigger] args[i + 1] by {}
        if first_unknown(tool, args) is None {
            assert forall|i: int| 0 <= i < args.len() implies takes(tool, (#[trigger] args[i]).0@) by {
                if i > 0 {
                    assert(rest[i - 1] == args[i]);
                }
            }
        } else if takes(tool, args[0].0@) {
            let i = choose|i: int| 0 <= i < rest.len() && !takes(tool, (#[trigger] rest[i]).0@);
            assert(args[i + 1] == rest[i]);
        }
    }
}

/// Which arguments a tool takes.
pub proof fn a_tool_takes_its_own_arguments(tool: VoiceTool, key: Seq<char>)
    ensures
        tool is GetContext || tool is ListThreads ==> !takes(tool, key),
        tool is ReadThread ==> (takes(tool, key) <==> key == "to"@),
        tool is FocusThread ==> (takes(tool, key) <==> key == "to"@ || key == "sessionId"@),
        tool is SendToThread ==> (takes(tool, key) <==> key == "to"@ || key == "message"@),
{
}

/// A name that is on no list is refused with those that are; a listed tool is
/// refused for its arguments alone.
pub proof fn an_unknown_tool_is_refused(name: Seq<char>, args: Seq<(String, Json)>)
    ensures
        listed(name) is None ==> refusal(name, args) is Some,
        listed(name) matches Some(tool) ==> (refusal(name, args) is None <==> problem(tool, args)
            is None),
        listed("get_context"@) == Some(VoiceTool::GetContext),
        listed(name) is Some ==> name == "get_context"@ || name == "list_threads"@ || name
            == "read_thread"@ || name == "focus_thread"@ || name == "send_to_thread"@,
{
}

/// A run answers with its last step, and takes its steps in order.
pub proof fn a_run_takes_its_steps_in_order(run: Progress, value: Value)
    requires
        run.left.len() > 0,
    ensures
        run.answered(Ok(value)).left == run.left.subrange(1, run.left.len() as int),
        run.answered(Ok(value)).last == value,
        run.answered(Ok(value)).failed == run.failed,
{
}

/// The model hears what a call came to: its value, its error, or that the
/// workspace is not there.
pub proof fn the_model_hears_what_came_of_a_call(fate: CallFate, r: ToolOutput)
    requires
        call_ensures(tool_output, (fate,), r),
    ensures
        fate matches CallFate::Replied(Ok(value)) ==> r == ToolOutput::Value(value),
        fate matches CallFate::Replied(Err(error)) ==> r == ToolOutput::Error(error),
        fate is Unsent || fate is Dropped ==> r is Error,
{
}

/// A conversation is served where it is hosted on this device, and this desktop
/// controls no engine elsewhere.
pub proof fn only_conversations_of_this_desktop_are_served(
    remote: bool,
    device: Option<Seq<char>>,
    chats: Seq<ChatHost>,
    session: Seq<char>,
    i: int,
)
    ensures
        remote ==> !served_here(remote, device, chats, session),
        device is None ==> !served_here(remote, device, chats, session),
        !remote && 0 <= i < chats.len() && chats[i].id@ == session && device == Some(
            chats[i].device_id@,
        ) ==> served_here(remote, device, chats, session),
{
}

/// The browser tabs of a right pane are those among its tabs, in order.
pub proof fn browser_tabs_are_among_the_surfaces(surfaces: Seq<RightSurface>, tab: u64)
    ensures
        browser_tabs(surfaces).contains(tab) <==> surfaces.contains(RightSurface::Browser(tab)),
    decreases surfaces.len(),
{
    if surfaces.len() > 0 {
        let front = surfaces.drop_last();
        browser_tabs_are_among_the_surfaces(front, tab);
        let before = browser_tabs(front);
        let all = browser_tabs(surfaces);
        let surface = RightSurface::Browser(tab);
        if before.contains(tab) {
            assert(all[before.index_of(tab)] == tab);
            assert(surfaces[front.index_of(surface)] == surface);
        }
        if surfaces.contains(surface) {
            let k = surfaces.index_of(surface);
            if k < front.len() {
                assert(front[k] == surface);
            } else {
                assert(all[before.len() as int] == tab);
            }
        }
        if all.contains(tab) {
            let k = all.index_of(tab);
            if k < before.len() {
                assert(before[k] == tab);
            } else {
                assert(surfaces[surfaces.len() - 1] == surface);
            }
        }
    }
}

/// A request that is served does what it asks for, and nothing else: a page
/// action goes to its own tab, a close closes that tab, and an open opens the
/// address, showing the pane exactly where the conversation shows without it.
pub proof fn a_request_does_what_it_asks(
    host: BrowserHost,
    chats: Seq<ChatHost>,
    session: Seq<char>,
    action: BrowserAction,
    plan: BrowserPlan,
)
    requires
        planned(host, chats, session, action, plan),
        !(plan is Refuse),
    ensures
        action matches BrowserAction::Page { tab } ==> plan == (BrowserPlan::Forward { tab })
            && host.surfaces@.contains(RightSurface::Browser(tab)),
        action matches BrowserAction::Close { tab } ==> host.surfaces@.contains(
            RightSurface::Browser(tab),
        ) && (if host.active_chat@ == session {
            plan == (BrowserPlan::CloseShown { tab })
        } else {
            plan == (BrowserPlan::CloseHidden { tab })
        }),
        action matches BrowserAction::Open { address: Ok(url) } ==> plan is Open && plan->url@
            == url@ && (plan->show_pane <==> host.active_chat@ == session
            && !host.right_pane_open),
        action is Tabs ==> plan is Answer,
        !host.remote,
{
    if let Some(tab) = action.about() {
        browser_tabs_are_among_the_surfaces(host.surfaces@, tab);
    }
}

/// A request is refused only where it cannot be served: the conversation lives
/// elsewhere, the tab is not its own or is gone, the address is not one, or
/// sixteen tabs are open.
pub proof fn a_request_is_refused_for_a_reason(
    host: BrowserHost,
    chats: Seq<ChatHost>,
    session: Seq<char>,
    action: BrowserAction,
    plan: BrowserPlan,
)
    requires
        planned(host, chats, session, action, plan),
        served_here(host.remote, host.local_device_id.deep_view(), chats, session),
    ensures
        action is Tabs ==> !(plan is Refuse),
        action matches BrowserAction::Open { address: Err(error) } ==> plan is Refuse
            && plan->Refuse_0@ == error@,
        action matches BrowserAction::Open { address: Ok(url) } ==> (plan is Refuse
            <==> browser_tabs(host.surfaces@).len() >= 16),
        action.about() matches Some(tab) ==> (plan is Refuse <==> !browser_tabs(
            host.surfaces@,
        ).contains(tab) || page_place(host.pages@, tab) >= host.pages@.len()),
{
}

/// A tab's page is the first kept for it.
pub proof fn a_page_is_found_by_its_tab(pages: Seq<(u64, PageState)>, tab: u64)
    ensures
        0 <= page_place(pages, tab) <= pages.len(),
        page_place(pages, tab) < pages.len() ==> pages[page_place(pages, tab)].0 == tab,
        forall|i: int| 0 <= i < page_place(pages, tab) ==> (#[trigger] pages[i]).0 != tab,
    decreases pages.len(),
{
    if pages.len() > 0 && pages[0].0 != tab {
        let rest = pages.subrange(1, pages.len() as int);
        a_page_is_found_by_its_tab(rest, tab);
        let at = page_place(rest, tab);
        if at < rest.len() {
            assert(rest[at] == pages[at + 1]);
        }
        assert forall|i: int| 0 <= i < at + 1 implies (#[trigger] pages[i]).0 != tab by {
            if i > 0 {
                assert(rest[i - 1] == pages[i]);
            }
        }
    }
}

/// An agent sees of a tab its address, its title and how it stands.
pub proof fn an_agent_sees_the_page(tab: u64, page: PageState)
    ensures
        state_value(tab, page) matches Value::Object(members) && members.contains(
            ("tab"@, Value::Unsigned(tab)),
        ) && members.contains(("url"@, Value::Text(page.url@))) && members.contains(
            ("title"@, Value::Text(page.title@)),
        ) && members.contains(("loading"@, Value::Bool(page.loading))) && members.contains(
            ("canBack"@, Value::Bool(page.can_back)),
        ) && members.contains(("canForward"@, Value::Bool(page.can_forward))) && members.contains(
            (
                "error"@,
                match page.error {
                    Some(error) => Value::Text(error@),
                    None => Value::Null,
                },
            ),
        ),
{
    if let Value::Object(members) = state_value(tab, page) {
        assert(members[0] == ("tab"@, Value::Unsigned(tab)));
        assert(members[1] == ("url"@, Value::Text(page.url@)));
        assert(members[2] == ("title"@, Value::Text(page.title@)));
        assert(members[3] == ("loading"@, Value::Bool(page.loading)));
        let shown = match page.error {
            Some(error) => Value::Text(error@),
            None => Value::Null,
        };
        assert(members[4] == ("error"@, shown));
        assert(members[5] == ("canBack"@, Value::Bool(page.can_back)));
        assert(members[6] == ("canForward"@, Value::Bool(page.can_forward)));
    }
}

/// Every tab that has a page is listed, in order.
pub proof fn every_tab_with_a_page_is_listed(tabs: Seq<u64>, pages: Seq<(u64, PageState)>)
    requires
        forall|i: int| 0 <= i < tabs.len() ==> page_place(pages, #[trigger] tabs[i]) < pages.len(),
    ensures
        listed_tabs(tabs, pages).len() == tabs.len(),
        forall|i: int|
            0 <= i < tabs.len() ==> #[trigger] listed_tabs(tabs, pages)[i] == state_value(
                tabs[i],
                pages[page_place(pages, tabs[i])].1,
            ),
    decreases tabs.len(),
{
    if tabs.len() > 0 {
        let front = tabs.drop_last();
        assert forall|i: int| 0 <= i < front.len() implies page_place(pages, #[trigger] front[i])
            < pages.len() by {
            assert(front[i] == tabs[i]);
        }
        every_tab_with_a_page_is_listed(front, pages);
        assert(page_place(pages, tabs[tabs.len() - 1]) < pages.len());
    }
}

/// A tab closed in a right pane that does not show is gone from it, and no
/// other is; where it was the active one, the picker takes its place.
pub proof fn a_hidden_close_takes_one_tab(
    surfaces: &mut Vec<RightSurface>,
    active: RightSurface,
    tab: u64,
    r: RightSurface,
    other: RightSurface,
)
    requires
        call_ensures(close_hidden_tab, (surfaces, active, tab), r),
    ensures
        !final(surfaces)@.contains(RightSurface::Browser(tab)),
        other != RightSurface::Browser(tab) ==> (final(surfaces)@.contains(other) <==> old(
            surfaces,
        )@.contains(other)),
        active == RightSurface::Browser(tab) ==> r is Picker,
        active != RightSurface::Browser(tab) ==> r == active,
{
    kept_surfaces(old(surfaces)@, tab, RightSurface::Browser(tab));
    kept_surfaces(old(surfaces)@, tab, other);
}

proof fn kept_surfaces(surfaces: Seq<RightSurface>, tab: u64, other: RightSurface)
    ensures
        without_tab(surfaces, tab).contains(other) <==> surfaces.contains(other) && other
            != RightSurface::Browser(tab),
    decreases surfaces.len(),
{
    reveal(Seq::filter);
    let kept = without_tab(surfaces, tab);
    if surfaces.len() > 0 {
        let front = surfaces.drop_last();
        kept_surfaces(front, tab, other);
        let before = without_tab(front, tab);
        if before.contains(other) {
            assert(kept[before.index_of(other)] == other);
        }
        if front.contains(other) {
            assert(surfaces[front.index_of(other)] == other);
        }
        if surfaces.contains(other) {
            let at = surfaces.index_of(other);
            if at < front.len() {
                assert(front[at] == other);
            } else if other != RightSurface::Browser(tab) {
                assert(kept[before.len() as int] == other);
            }
        }
        if kept.contains(other) {
            let at = kept.index_of(other);
            if at < before.len() {
                assert(before[at] == other);
            } else {
                assert(surfaces[surfaces.len() - 1] == other);
            }
        }
    }
}

/// An agent is told of an opened tab, or why its page failed.
pub proof fn a_failed_page_is_told(tab: u64, page: &PageState, r: Result<Json, String>)
    requires
        call_ensures(opened_reply, (tab, page), r),
    ensures
        page.error is Some ==> r is Err && r->Err_0@ == page.error->0@,
        page.error is None ==> r is Ok,
{
}

/// The control channel is opened once, and never for an engine elsewhere.
pub proof fn the_channel_is_opened_once(started: bool, remote: bool, r: bool)
    requires
        call_ensures(starts_browser_control, (started, remote), r),
    ensures
        started || remote ==> !r,
        !started && !remote ==> r,
{
}

/// An object has a member of that name and value.
pub open spec fn has_member(value: Value, key: Seq<char>, held: Value) -> bool {
    value matches Value::Object(members) && exists|i: int|
        0 <= i < members.len() && (#[trigger] members[i]) == (key, held)
}

/// A tool is offered under the very name a call of it is found by, and takes no
/// argument beyond those it names.
pub proof fn a_tool_is_offered_by_its_name(tool: VoiceTool)
    ensures
        has_member(definition(tool), "type"@, Value::Text("function"@)),
        has_member(definition(tool), "name"@, Value::Text(tool_name(tool))),
        listed(tool_name(tool)) == Some(tool),
        has_member(definition(tool), "parameters"@, parameters_schema(tool)),
        has_member(parameters_schema(tool), "type"@, Value::Text("object"@)),
        has_member(parameters_schema(tool), "properties"@, properties_schema(tool)),
        has_member(parameters_schema(tool), "additionalProperties"@, Value::Bool(false)),
        required_argument(tool) matches Some(key) ==> has_member(
            parameters_schema(tool),
            "required"@,
            Value::Array(seq![Value::Text(key)]),
        ),
        allowlist().contains(tool),
{
    let members = definition(tool)->Object_0;
    assert(members[0] == ("type"@, Value::Text("function"@)));
    assert(members[1] == ("name"@, Value::Text(tool_name(tool))));
    assert(members[3] == ("parameters"@, parameters_schema(tool)));
    let schema = parameters_schema(tool)->Object_0;
    assert(schema[0] == ("type"@, Value::Text("object"@)));
    assert(schema[1] == ("properties"@, properties_schema(tool)));
    assert(schema[schema.len() - 1] == ("additionalProperties"@, Value::Bool(false)));
    if let Some(key) = required_argument(tool) {
        assert(schema[2] == ("required"@, Value::Array(seq![Value::Text(key)])));
    }
    reveal_strlit("get_context");
    reveal_strlit("list_threads");
    reveal_strlit("read_thread");
    reveal_strlit("focus_thread");
    reveal_strlit("send_to_thread");
    assert("get_context"@.len() == 11 && "list_threads"@.len() == 12 && "read_thread"@.len() == 11);
    assert("focus_thread"@.len() == 12 && "send_to_thread"@.len() == 14);
    assert("get_context"@[0] == 'g' && "read_thread"@[0] == 'r');
    assert("list_threads"@[0] == 'l' && "focus_thread"@[0] == 'f');
    let at = match tool {
        VoiceTool::GetContext => 0int,
        VoiceTool::ListThreads => 1,
        VoiceTool::ReadThread => 2,
        VoiceTool::FocusThread => 3,
        VoiceTool::SendToThread => 4,
    };
    assert(allowlist()[at] == tool);
}

/// The schema of a tool names exactly the arguments a call of it may have.
pub proof fn a_schema_names_what_a_call_may_have(tool: VoiceTool, key: Seq<char>)
    ensures
        properties_schema(tool) matches Value::Object(members) && (takes(tool, key) <==> exists|
            i: int,
        |
            0 <= i < members.len() && (#[trigger] members[i]).0 == key),
{
    let members = properties_schema(tool)->Object_0;
    if takes(tool, key) {
        match tool {
            VoiceTool::ReadThread => {
                assert(members[0].0 == key);
            },
            VoiceTool::FocusThread | VoiceTool::SendToThread => {
                assert(members[0].0 == key || members[1].0 == key);
            },
            _ => {},
        }
    }
}

/// A function of the voice backend is offered under its name, with what it is
/// for.
pub proof fn a_backend_function_is_told_by_its_name(
    name: Seq<char>,
    description: Seq<char>,
    arguments: Seq<Seq<char>>,
    required: Seq<Seq<char>>,
)
    ensures
        has_member(
            function_schema(name, description, arguments, required),
            "name"@,
            Value::Text(name),
        ),
        has_member(
            function_schema(name, description, arguments, required),
            "description"@,
            Value::Text(description),
        ),
        has_member(
            function_schema(name, description, arguments, required),
            "type"@,
            Value::Text("function"@),
        ),
        has_member(
            function_schema(name, description, arguments, required),
            "strict"@,
            Value::Bool(false),
        ),
{
    let members = function_schema(name, description, arguments, required)->Object_0;
    assert(members[1] == ("strict"@, Value::Bool(false)));
    assert(members[0] == ("type"@, Value::Text("function"@)));
    assert(members[2] == ("name"@, Value::Text(name)));
    assert(members[3] == ("description"@, Value::Text(description)));
}

/// The parameters of a backend function: every argument is a text, those that
/// have to be given are listed, and nothing else is taken.
pub proof fn a_backend_function_lists_its_arguments(
    name: Seq<char>,
    description: Seq<char>,
    arguments: Seq<Seq<char>>,
    required: Seq<Seq<char>>,
    i: int,
)
    requires
        0 <= i < arguments.len(),
    ensures
        ({
            let schema = function_schema(name, description, arguments, required)->Object_0[4];
            let parameters = schema.1;
            let properties = parameters->Object_0[1];
            &&& schema.0 == "parameters"@ && properties.0 == "properties"@
            &&& has_member(parameters, "additionalProperties"@, Value::Bool(false))
            &&& properties.1->Object_0.len() == arguments.len()
            &&& properties.1->Object_0[i].0 == arguments[i]
            &&& has_member(properties.1->Object_0[i].1, "type"@, Value::Text("string"@))
            &&& required.len() > 0 ==> has_member(
                parameters,
                "required"@,
                Value::Array(required.map_values(|key: Seq<char>| Value::Text(key))),
            )
        }),
{
    let schema = function_schema(name, description, arguments, required)->Object_0[4];
    let members = schema.1->Object_0;
    assert(members[members.len() - 1] == ("additionalProperties"@, Value::Bool(false)));
    let own = members[1].1->Object_0[i].1->Object_0;
    assert(own[0] == ("type"@, Value::Text("string"@)));
    if required.len() > 0 {
        assert(members[2] == (
            "required"@,
            Value::Array(required.map_values(|key: Seq<char>| Value::Text(key))),
        ));
    }
}

/// The backend offers three functions: one that reads, one that discovers, and
/// one that runs an action, which has to name it and give its arguments.
pub proof fn the_backend_offers_three_functions()
    ensures
        backend_functions().len() == 3,
        has_member(backend_functions()[0], "name"@, Value::Text("get_context"@)),
        has_member(backend_functions()[1], "name"@, Value::Text("list_actions"@)),
        has_member(backend_functions()[2], "name"@, Value::Text("execute_action"@)),
{
    let a = backend_functions()[0]->Object_0;
    let b = backend_functions()[1]->Object_0;
    let c = backend_functions()[2]->Object_0;
    assert(a[2] == ("name"@, Value::Text("get_context"@)));
    assert(b[2] == ("name"@, Value::Text("list_actions"@)));
    assert(c[2] == ("name"@, Value::Text("execute_action"@)));
}

/// A needed argument has to be given, an offered one may be left out; both are
/// of their name and kind.
pub proof fn only_needed_arguments_have_to_be_given(name: &'static str, kind: Kind)
    ensures
        !needed(name, kind).optional && offered(name, kind).optional,
        needed(name, kind).name == name && offered(name, kind).name == name,
        needed(name, kind).kind == kind && offered(name, kind).kind == kind,
        required_names(seq![needed(name, kind)]).len() == 1,
        required_names(seq![offered(name, kind)]).len() == 0,
{
    reveal_with_fuel(required_names, 2);
    assert(seq![needed(name, kind)].drop_last() =~= Seq::<Field>::empty());
    assert(seq![offered(name, kind)].drop_last() =~= Seq::<Field>::empty());
}

} // verus!
