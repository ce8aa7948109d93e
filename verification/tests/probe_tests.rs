use hypridle_audio_listener::audiosys::{AudioListenerError, AudioStatus, AudioSystem};
use hypridle_audio_listener::json::{parse_json, Json, Member};
use hypridle_audio_listener::probe::{
    failed_tool, missing_tool, no_compatible_system, node_active, pipewire_status,
    pipewire_verdict, pulseaudio_status, read_output, read_text, Tool,
};

fn member(name: &str, value: Json) -> Member {
    Member { name: name.to_string(), value }
}

fn text(value: &str) -> Json {
    Json::Text(value.to_string())
}

fn node(state: &str) -> Json {
    Json::Object(vec![
        member("id", Json::Number("31".to_string())),
        member("type", text("PipeWire:Interface:Node")),
        member(
            "info",
            Json::Object(vec![
                member("max-input-ports", Json::Number("0".to_string())),
                member("state", text(state)),
                member("props", Json::Object(vec![])),
            ]),
        ),
    ])
}

const SINK_INPUTS_RUNNING: &str = "Sink Input #42\n\tDriver: PipeWire\n\tState: RUNNING\n\tSample Specification: float32le 2ch 48000Hz\n";

const SINK_INPUTS_CORKED: &str = "Sink Input #42\n\tDriver: PipeWire\n\tState: CORKED\n\tSample Specification: float32le 2ch 48000Hz\n";

#[test]
fn tools_and_their_arguments() {
    assert_eq!(Tool::PwDump.program(), "pw-dump");
    assert_eq!(Tool::PwDump.arguments(), Vec::<&str>::new());
    assert_eq!(Tool::Pactl.program(), "pactl");
    assert_eq!(Tool::Pactl.arguments(), vec!["list", "sink-inputs"]);
}

#[test]
fn each_system_has_its_tool() {
    assert_eq!(Tool::for_system(AudioSystem::PipeWire), Some(Tool::PwDump));
    assert_eq!(Tool::for_system(AudioSystem::PulseAudio), Some(Tool::Pactl));
    assert_eq!(Tool::for_system(AudioSystem::NotCompatible), None);
}

#[test]
fn probe_errors_name_the_tool() {
    assert_eq!(
        missing_tool(Tool::PwDump),
        AudioListenerError::MissingCommand("pw-dump not found on system".to_string())
    );
    assert_eq!(
        missing_tool(Tool::Pactl),
        AudioListenerError::MissingCommand("pactl not found on system".to_string())
    );
    assert_eq!(
        failed_tool(Tool::PwDump),
        AudioListenerError::CommandFailed("Failed to execute pw-dump".to_string())
    );
    assert_eq!(
        failed_tool(Tool::Pactl),
        AudioListenerError::CommandFailed("Failed to execute pactl".to_string())
    );
    assert_eq!(
        no_compatible_system(),
        AudioListenerError::MissingCommand(
            "Neither PipeWire nor PulseAudio found on system".to_string()
        )
    );
}

#[test]
fn a_node_is_active_by_its_info_state() {
    assert!(node_active(&node("active")));
    assert!(!node_active(&node("idle")));
    assert!(!node_active(&node("suspended")));
    assert!(!node_active(&node("Active")));
}

#[test]
fn a_node_without_info_state_is_not_active() {
    assert!(!node_active(&Json::Object(vec![])));
    assert!(!node_active(&Json::Object(vec![member("state", text("active"))])));
    assert!(!node_active(&Json::Object(vec![member("info", text("active"))])));
    assert!(!node_active(&Json::Object(vec![member("info", Json::Object(vec![]))])));
    assert!(!node_active(&Json::Null));
    assert!(!node_active(&text("active")));
    assert!(!node_active(&Json::Array(vec![node("active")])));
}

#[test]
fn a_state_that_is_no_string_is_not_active() {
    let state = |value: Json| Json::Object(vec![member("info", Json::Object(vec![member("state", value)]))]);
    assert!(!node_active(&state(Json::Bool(true))));
    assert!(!node_active(&state(Json::Null)));
    assert!(!node_active(&state(Json::Array(vec![text("active")]))));
    assert!(node_active(&state(text("active"))));
}

#[test]
fn pipewire_is_playing_when_any_node_is_active() {
    assert_eq!(
        pipewire_status(&Json::Array(vec![node("idle"), node("active"), node("suspended")])),
        AudioStatus::Playing
    );
    assert_eq!(
        pipewire_status(&Json::Array(vec![node("active")])),
        AudioStatus::Playing
    );
}

#[test]
fn pipewire_is_not_playing_when_no_node_is_active() {
    assert_eq!(
        pipewire_status(&Json::Array(vec![node("idle"), node("suspended")])),
        AudioStatus::NotPlaying
    );
    assert_eq!(pipewire_status(&Json::Array(vec![])), AudioStatus::NotPlaying);
}

#[test]
fn pipewire_verdict_does_not_depend_on_node_order() {
    let orders = [
        vec![node("active"), node("idle"), node("suspended")],
        vec![node("idle"), node("active"), node("suspended")],
        vec![node("suspended"), node("idle"), node("active")],
    ];
    for nodes in orders {
        assert_eq!(pipewire_status(&Json::Array(nodes)), AudioStatus::Playing);
    }
}

#[test]
fn pipewire_verdict_does_not_depend_on_other_members() {
    let bare = Json::Object(vec![member(
        "info",
        Json::Object(vec![member("state", text("active"))]),
    )]);
    assert_eq!(pipewire_status(&Json::Array(vec![bare])), AudioStatus::Playing);
    assert_eq!(pipewire_status(&Json::Array(vec![node("active")])), AudioStatus::Playing);
    let misleading = Json::Object(vec![
        member("state", text("active")),
        member("info", Json::Object(vec![member("state", text("idle")), member("other", text("active"))])),
    ]);
    assert_eq!(pipewire_status(&Json::Array(vec![misleading])), AudioStatus::NotPlaying);
}

#[test]
fn a_dump_that_is_no_array_is_not_playing() {
    assert_eq!(pipewire_status(&node("active")), AudioStatus::NotPlaying);
    assert_eq!(pipewire_status(&Json::Null), AudioStatus::NotPlaying);
    assert_eq!(pipewire_status(&text("active")), AudioStatus::NotPlaying);
    assert_eq!(read_text(Tool::PwDump, "{\"info\":{\"state\":\"active\"}}"), Ok(AudioStatus::NotPlaying));
    assert_eq!(read_text(Tool::PwDump, "7"), Ok(AudioStatus::NotPlaying));
}

#[test]
fn pipewire_verdict_of_a_parsed_dump() {
    assert_eq!(
        pipewire_verdict(Ok(Json::Array(vec![node("active")]))),
        Ok(AudioStatus::Playing)
    );
    assert_eq!(pipewire_verdict(Ok(Json::Array(vec![]))), Ok(AudioStatus::NotPlaying));
}

#[test]
fn pipewire_verdict_of_a_parse_error_is_invalid_output() {
    assert_eq!(
        pipewire_verdict(Err("expected value at line 1 column 1".to_string())),
        Err(AudioListenerError::InvalidOutput(
            "Failed to parse pw-dump output: expected value at line 1 column 1".to_string()
        ))
    );
    assert_eq!(
        pipewire_verdict(Err(String::new())),
        Err(AudioListenerError::InvalidOutput("Failed to parse pw-dump output: ".to_string()))
    );
}

#[test]
fn pipewire_reads_the_dump_text() {
    let dump = "[\n  {\"id\": 30, \"type\": \"PipeWire:Interface:Node\", \"info\": {\"state\": \"suspended\", \"props\": {}}},\n  {\"id\": 31, \"info\": {\"props\": {\"node.name\": \"x\"}, \"state\": \"active\"}}\n]";
    assert_eq!(read_text(Tool::PwDump, dump), Ok(AudioStatus::Playing));
    assert_eq!(
        read_text(Tool::PwDump, "[{\"id\": 30, \"info\": {\"state\": \"idle\"}}, {\"id\": 1}]"),
        Ok(AudioStatus::NotPlaying)
    );
    assert_eq!(read_text(Tool::PwDump, "[]"), Ok(AudioStatus::NotPlaying));
}

#[test]
fn pipewire_refuses_what_is_no_json() {
    assert_eq!(
        read_text(Tool::PwDump, "not json"),
        Err(AudioListenerError::InvalidOutput(
            "Failed to parse pw-dump output: expected ident at line 1 column 2".to_string()
        ))
    );
    assert_eq!(
        read_text(Tool::PwDump, ""),
        Err(AudioListenerError::InvalidOutput(
            "Failed to parse pw-dump output: EOF while parsing a value at line 1 column 0"
                .to_string()
        ))
    );
    assert_eq!(
        read_text(Tool::PwDump, "[{\"info\": {\"state\": \"active\"}}"),
        Err(AudioListenerError::InvalidOutput(
            "Failed to parse pw-dump output: EOF while parsing a list at line 1 column 30"
                .to_string()
        ))
    );
}

#[test]
fn a_repeated_member_counts_as_the_parser_keeps_it() {
    let parsed = parse_json("{\"a\": 1, \"a\": 2}");
    assert_eq!(
        parsed,
        Ok(Json::Object(vec![member("a", Json::Number("2".to_string()))]))
    );
    assert_eq!(
        read_text(
            Tool::PwDump,
            "[{\"info\": {\"state\": \"idle\", \"state\": \"active\"}}]"
        ),
        Ok(AudioStatus::Playing)
    );
}

#[test]
fn pulseaudio_is_playing_when_a_state_line_says_running() {
    assert_eq!(pulseaudio_status(SINK_INPUTS_RUNNING), AudioStatus::Playing);
    assert_eq!(pulseaudio_status("State: RUNNING"), AudioStatus::Playing);
    assert_eq!(pulseaudio_status("RUNNING State:"), AudioStatus::Playing);
    assert_eq!(pulseaudio_status("State: CORKED\nState: RUNNING\n"), AudioStatus::Playing);
    assert_eq!(pulseaudio_status("\tState: RUNNING\r\n"), AudioStatus::Playing);
}

#[test]
fn pulseaudio_is_not_playing_otherwise() {
    assert_eq!(pulseaudio_status(SINK_INPUTS_CORKED), AudioStatus::NotPlaying);
    assert_eq!(pulseaudio_status(""), AudioStatus::NotPlaying);
    assert_eq!(pulseaudio_status("State: running"), AudioStatus::NotPlaying);
    assert_eq!(pulseaudio_status("state: RUNNING"), AudioStatus::NotPlaying);
    assert_eq!(pulseaudio_status("State RUNNING"), AudioStatus::NotPlaying);
    assert_eq!(pulseaudio_status("RUNNING"), AudioStatus::NotPlaying);
}

#[test]
fn running_on_another_line_than_state_does_not_count() {
    assert_eq!(pulseaudio_status("State: CORKED\nRUNNING\n"), AudioStatus::NotPlaying);
    assert_eq!(pulseaudio_status("RUNNING\nState: IDLE"), AudioStatus::NotPlaying);
    assert_eq!(
        pulseaudio_status("State:\n RUNNING\nmedia.name = \"RUNNING\"\nState: CORKED"),
        AudioStatus::NotPlaying
    );
    assert_eq!(pulseaudio_status("State: RUN\nNING"), AudioStatus::NotPlaying);
}

#[test]
fn read_text_goes_by_the_tool() {
    assert_eq!(read_text(Tool::Pactl, SINK_INPUTS_RUNNING), Ok(AudioStatus::Playing));
    assert_eq!(read_text(Tool::Pactl, "not json"), Ok(AudioStatus::NotPlaying));
    assert_eq!(read_text(Tool::Pactl, "[{\"info\":{\"state\":\"active\"}}]"), Ok(AudioStatus::NotPlaying));
    assert_eq!(read_text(Tool::PwDump, "[{\"info\":{\"state\":\"active\"}}]"), Ok(AudioStatus::Playing));
}

#[test]
fn read_output_decodes_the_bytes() {
    assert_eq!(
        read_output(Tool::Pactl, SINK_INPUTS_RUNNING.as_bytes()),
        Ok(AudioStatus::Playing)
    );
    assert_eq!(
        read_output(Tool::PwDump, b"[{\"info\":{\"state\":\"active\"}}]"),
        Ok(AudioStatus::Playing)
    );
    assert_eq!(read_output(Tool::Pactl, b""), Ok(AudioStatus::NotPlaying));
}

#[test]
fn read_output_reads_bad_bytes_as_replacement_characters() {
    assert_eq!(
        read_output(Tool::Pactl, b"\xff\xfeState: \xc3RUNNING\n"),
        Ok(AudioStatus::Playing)
    );
    assert_eq!(
        read_output(Tool::Pactl, b"State: RUN\xffNING\n"),
        Ok(AudioStatus::NotPlaying)
    );
    assert_eq!(
        read_output(Tool::PwDump, b"[{\"info\":{\"state\":\"act\xffive\"}}]"),
        Ok(AudioStatus::NotPlaying)
    );
    assert_eq!(
        read_output(Tool::PwDump, b"\xff"),
        Err(AudioListenerError::InvalidOutput(
            "Failed to parse pw-dump output: expected value at line 1 column 1".to_string()
        ))
    );
}

fn active_by_serde(dump: &str) -> Option<bool> {
    let parsed: serde_json::Value = serde_json::from_str(dump).ok()?;
    Some(match parsed.as_array() {
        Some(nodes) => nodes.iter().any(|node| {
            node.get("info")
                .and_then(|info| info.get("state"))
                .map_or(false, |state| state == "active")
        }),
        None => false,
    })
}

#[test]
fn pipewire_reads_a_dump_as_the_parsed_value_is_read() {
    let dumps = [
        "[]",
        "{}",
        "null",
        "\"active\"",
        "[null, 1, \"active\", [], {}]",
        "[{\"info\": null}]",
        "[{\"info\": []}]",
        "[{\"info\": {\"state\": null}}]",
        "[{\"info\": {\"state\": \"active\"}}]",
        "[{\"info\": {\"state\": \"ACTIVE\"}}]",
        "[{\"info\": {\"state\": [\"active\"]}}]",
        "[{\"info\": {\"state\": {\"state\": \"active\"}}}]",
        "[{\"info\": {\"state\": \"idle\"}, \"state\": \"active\"}]",
        "[{\"info\": {\"state\": \"active\", \"state\": \"idle\"}}]",
        "[{\"info\": {\"state\": \"idle\"}, \"info\": {\"state\": \"active\"}}]",
        "[{\"z\": 1, \"info\": {\"z\": 2, \"state\": \"active\", \"a\": 3}, \"a\": 4}]",
        "[[{\"info\": {\"state\": \"active\"}}]]",
        "[{\"id\": 1}, {\"id\": 2, \"info\": {\"state\": \"suspended\"}}, {\"info\": {\"state\": \"active\"}}]",
        "{\"info\": {\"state\": \"active\"}}",
        "[{\"info\": {\"state\": \"act\\u0069ve\"}}]",
        "[{\"in\\u0066o\": {\"state\": \"active\"}}]",
        "[",
        "[{\"info\": {\"state\": \"active\"}},]",
        "",
    ];
    for dump in dumps {
        let expected = active_by_serde(dump).map(AudioStatus::from_activity);
        assert_eq!(read_text(Tool::PwDump, dump).ok(), expected, "dump {:?}", dump);
    }
}
