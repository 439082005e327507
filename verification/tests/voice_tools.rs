//! The voice tools and the workspace's action catalog.
use noches_ui::json::Json;
use noches_ui::voice_tools::{
    call_plan, find_tool, plan as plan_tool, tool_definitions, tool_output, tools, CallFate,
    ControlStep, StepRun, ToolOutput,
};

fn text(value: &str) -> Json {
    Json::Text(value.to_owned())
}

fn object(members: Vec<(&str, Json)>) -> Json {
    Json::Object(members.into_iter().map(|(key, value)| (key.to_owned(), value)).collect())
}

fn args(members: Vec<(&str, Json)>) -> Vec<(String, Json)> {
    members.into_iter().map(|(key, value)| (key.to_owned(), value)).collect()
}

fn plan(name: &str, members: Vec<(&str, Json)>) -> Result<Vec<ControlStep>, String> {
    let tool = find_tool(name).unwrap_or_else(|| panic!("{name} is not allowlisted"));
    plan_tool(tool, &args(members))
}

fn get<'a>(value: &'a Json, key: &str) -> Option<&'a Json> {
    match value {
        Json::Object(members) => {
            members.iter().find(|(name, _)| name == key).map(|(_, value)| value)
        }
        _ => None,
    }
}

fn as_str(value: Option<&Json>) -> Option<&str> {
    match value {
        Some(Json::Text(text)) => Some(text),
        _ => None,
    }
}

#[test]
fn definitions_cover_the_reviewed_allowlist() {
    let names: Vec<_> = tools().iter().map(|tool| tool.name()).collect();
    assert_eq!(
        names,
        ["get_context", "list_threads", "read_thread", "focus_thread", "send_to_thread"]
    );

    let definitions = tool_definitions();
    assert_eq!(definitions.len(), tools().len());
    for (definition, tool) in definitions.iter().zip(tools()) {
        assert_eq!(as_str(get(definition, "type")), Some("function"));
        assert_eq!(as_str(get(definition, "name")), Some(tool.name()));
        assert!(!as_str(get(definition, "description")).unwrap().is_empty());
        let parameters = get(definition, "parameters").unwrap();
        assert_eq!(as_str(get(parameters, "type")), Some("object"));
        assert_eq!(get(parameters, "additionalProperties"), Some(&Json::Bool(false)));
        assert!(
            get(definition, "function").is_none(),
            "Realtime function definitions are flat, not nested like chat completions"
        );
    }

    let required = |name: &str| -> Vec<String> {
        let definition = definitions
            .iter()
            .find(|definition| as_str(get(definition, "name")) == Some(name))
            .unwrap();
        match get(get(definition, "parameters").unwrap(), "required") {
            Some(Json::Array(keys)) => {
                keys.iter().map(|key| as_str(Some(key)).unwrap().to_owned()).collect()
            }
            _ => Vec::new(),
        }
    };
    assert_eq!(required("focus_thread"), ["sessionId"]);
    assert_eq!(required("send_to_thread"), ["message"]);
    for name in ["get_context", "list_threads", "read_thread"] {
        assert!(required(name).is_empty(), "{name} takes no required args");
    }
}

#[test]
fn read_tools_map_to_single_control_methods() {
    assert_eq!(
        plan("get_context", vec![]).unwrap(),
        vec![ControlStep::new("layout.state", object(vec![]))]
    );
    assert_eq!(
        plan("list_threads", vec![]).unwrap(),
        vec![ControlStep::new("chat.list", object(vec![]))]
    );
    assert_eq!(
        plan("read_thread", vec![]).unwrap(),
        vec![ControlStep::new("agent.read", object(vec![]))]
    );
    assert_eq!(
        plan("read_thread", vec![("to", text("pane:1"))]).unwrap(),
        vec![ControlStep::new("agent.read", object(vec![("to", text("pane:1"))]))]
    );

    for name in ["get_context", "list_threads"] {
        assert!(
            plan(name, vec![("to", text("active-pane"))]).is_err(),
            "{name} takes no arguments"
        );
    }
    assert!(plan("read_thread", vec![("to", Json::Unsigned(7))]).is_err());
}

#[test]
fn focus_thread_selects_then_activates() {
    let steps = plan(
        "focus_thread",
        vec![("sessionId", text("s-1")), ("to", text("label:review"))],
    )
    .unwrap();
    assert_eq!(steps.len(), 2);
    assert_eq!(steps[0].method, "chat.select");
    assert_eq!(
        steps[0].params,
        object(vec![("sessionId", text("s-1")), ("to", text("label:review"))])
    );
    assert_eq!(
        steps[1],
        ControlStep::new("window.activate", object(vec![])),
        "activation follows the selection"
    );

    let steps = plan("focus_thread", vec![("sessionId", text("s-1"))]).unwrap();
    assert_eq!(steps[0].params, object(vec![("sessionId", text("s-1"))]));
    assert!(
        get(&steps[0].params, "to").is_none(),
        "omitting `to` leaves the dispatcher's active-pane default in place"
    );

    assert!(plan("focus_thread", vec![]).is_err());
    assert!(plan("focus_thread", vec![("sessionId", text("  "))]).is_err());
    assert!(plan(
        "focus_thread",
        vec![("sessionId", text("s-1")), ("extra", Json::Unsigned(1))]
    )
    .is_err());
}

#[test]
fn send_to_thread_maps_exact_agent_send_params() {
    let steps = plan(
        "send_to_thread",
        vec![("to", text("id:2")), ("message", text("run the tests"))],
    )
    .unwrap();
    assert_eq!(steps.len(), 1);
    assert_eq!(steps[0].method, "agent.send");
    assert_eq!(get(&steps[0].params, "to"), Some(&text("id:2")));
    assert_eq!(get(&steps[0].params, "message"), Some(&text("run the tests")));
    assert!(matches!(&steps[0].params, Json::Object(members) if members.len() == 2));
    assert!(
        get(&steps[0].params, "text").is_none(),
        "the control method takes `message`, not `text`"
    );

    let steps = plan("send_to_thread", vec![("message", text("hi"))]).unwrap();
    assert_eq!(steps[0].params, object(vec![("message", text("hi"))]));

    assert!(plan("send_to_thread", vec![]).is_err());
    assert!(plan("send_to_thread", vec![("message", Json::Unsigned(7))]).is_err());
    assert!(plan(
        "send_to_thread",
        vec![("message", text("hi")), ("queue", Json::Bool(true))]
    )
    .is_err());
}

#[test]
fn sink_rejects_unlisted_tools_and_bad_arguments_before_dispatch() {
    for name in ["agent.stop", "layout.compose", "window.activate", "chat.new"] {
        let output = call_plan(name, &args(vec![("to", text("active-pane"))])).unwrap_err();
        assert!(output.contains("unknown voice tool"), "{name}: {output}");
    }
    let output = call_plan("send_to_thread", &args(vec![])).unwrap_err();
    assert!(output.contains("rejected its arguments"), "{output}");
}

#[test]
fn refusals_are_worded_exactly() {
    assert_eq!(
        call_plan("nope", &args(vec![])).unwrap_err(),
        "unknown voice tool `nope`; available: get_context, list_threads, read_thread, \
         focus_thread, send_to_thread"
    );
    assert!(call_plan("read_thread", &args(vec![("to", text(" "))]))
        .unwrap_err()
        .ends_with("`to` must be a nonempty string"));
}

#[test]
fn sink_stays_a_tool_result_when_the_executor_is_gone() {
    assert!(call_plan("list_threads", &args(vec![])).is_ok());
    match tool_output(CallFate::Unsent) {
        ToolOutput::Error(output) => assert!(output.contains("not available"), "{output}"),
        ToolOutput::Value(_) => panic!("an unsent call has no value"),
    }
    match tool_output(CallFate::Dropped) {
        ToolOutput::Error(output) => assert!(output.contains("dropped"), "{output}"),
        ToolOutput::Value(_) => panic!("a dropped call has no value"),
    }
}

#[test]
fn replies_reach_the_model_whole() {
    let panes = || object(vec![("panes", Json::Array(vec![Json::Unsigned(1), Json::Unsigned(2)]))]);
    match tool_output(CallFate::Replied(Ok(panes()))) {
        ToolOutput::Value(value) => assert_eq!(value, panes()),
        ToolOutput::Error(error) => panic!("{error}"),
    }
    let denied = "denied: a human must Allow API access in the selected workspace";
    match tool_output(CallFate::Replied(Err(denied.to_owned()))) {
        ToolOutput::Error(error) => assert_eq!(error, denied),
        ToolOutput::Value(_) => panic!("a denial is no value"),
    }
}

#[test]
fn steps_run_in_order_until_one_fails() {
    let steps = plan("focus_thread", vec![("sessionId", text("s-1"))]).unwrap();
    let mut run = StepRun::new(steps);
    assert_eq!(run.due().unwrap().method, "chat.select");
    run.answer(Ok(Json::Bool(true)));
    assert_eq!(run.due().unwrap().method, "window.activate");
    run.answer(Ok(Json::Unsigned(3)));
    assert!(run.due().is_none());
    assert_eq!(run.result(), Ok(Json::Unsigned(3)), "the last answer counts");

    let steps = plan("focus_thread", vec![("sessionId", text("s-1"))]).unwrap();
    let mut run = StepRun::new(steps);
    run.answer(Err("gone".to_owned()));
    assert!(run.due().is_none(), "nothing runs behind a failure");
    assert_eq!(run.result(), Err("gone".to_owned()));

    assert_eq!(StepRun::new(Vec::new()).result(), Ok(Json::Null));
}
