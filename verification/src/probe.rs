//! The two probes: what the output of `pw-dump` and of `pactl` says about
//! playback.

use crate::audiosys::outcome_model;
use crate::audiosys::status_of;
use crate::audiosys::AudioListenerError;
use crate::audiosys::AudioStatus;
use crate::audiosys::AudioSystem;
use crate::audiosys::ErrorModel;
use crate::json::item_models;
use crate::json::lookup;
use crate::json::MemberModel;
use crate::json::parse_json;
use crate::json::parse_outcome;
use crate::json::Json;
use crate::json::JsonModel;
use crate::text::chars_of;
use crate::text::contains;
use crate::text::decode_lossy;
use crate::text::is_line;
use crate::text::line_text;
use crate::text::lossy_text;
use crate::text::lemma_same_line_is_unbroken;
use crate::text::lemma_unbroken_is_same_line;
use crate::text::needle_seqs;
use crate::text::occurs_at;
use crate::text::some_line_contains_all;
use crate::text::unbroken;
use vstd::prelude::*;
use vstd::string::StringExecFns;

verus! {

/// A tool that a probe runs.
#[derive(Debug, Clone, Copy, PartialEq, Eq, Structural)]
pub enum Tool {
    /// `pw-dump`, which prints the PipeWire graph as JSON.
    PwDump,
    /// `pactl list sink-inputs`, which prints PulseAudio's streams as text.
    Pactl,
}

/// The name of the program behind `tool`.
pub open spec fn program_name(tool: Tool) -> Seq<char> {
    match tool {
        Tool::PwDump => "pw-dump"@,
        Tool::Pactl => "pactl"@,
    }
}

/// The arguments that `tool` is run with.
pub open spec fn program_arguments(tool: Tool) -> Seq<Seq<char>> {
    match tool {
        Tool::PwDump => seq![],
        Tool::Pactl => seq!["list"@, "sink-inputs"@],
    }
}

/// The tool that probes `system`; an incompatible system has none.
pub open spec fn tool_of(system: AudioSystem) -> Option<Tool> {
    match system {
        AudioSystem::PipeWire => Some(Tool::PwDump),
        AudioSystem::PulseAudio => Some(Tool::Pactl),
        AudioSystem::NotCompatible => None,
    }
}

/// The error of a probe whose tool is not installed.
pub open spec fn missing_tool_error(tool: Tool) -> ErrorModel {
    match tool {
        Tool::PwDump => ErrorModel::MissingCommand("pw-dump not found on system"@),
        Tool::Pactl => ErrorModel::MissingCommand("pactl not found on system"@),
    }
}

/// The error of a probe whose tool could not be run.
pub open spec fn failed_tool_error(tool: Tool) -> ErrorModel {
    match tool {
        Tool::PwDump => ErrorModel::CommandFailed("Failed to execute pw-dump"@),
        Tool::Pactl => ErrorModel::CommandFailed("Failed to execute pactl"@),
    }
}

/// The error of a probe on a machine with neither audio system.
pub open spec fn no_system_error() -> ErrorModel {
    ErrorModel::MissingCommand("Neither PipeWire nor PulseAudio found on system"@)
}

/// A node of a PipeWire dump is active: its member `info` has a member
/// `state` that is the string `active`.
pub open spec fn node_is_active(node: JsonModel) -> bool {
    match node.member("info"@) {
        Some(info) => info.member("state"@) == Some(JsonModel::Text("active"@)),
        None => false,
    }
}

/// A PipeWire dump shows playback: it is an array, and one of its nodes is
/// active.
pub open spec fn has_active_node(dump: JsonModel) -> bool {
    match dump {
        JsonModel::Array(nodes) => exists|i: int|
            0 <= i < nodes.len() && node_is_active(#[trigger] nodes[i]),
        _ => false,
    }
}

/// PulseAudio's list of sink inputs shows playback: one of its lines holds
/// both `State:` and `RUNNING`.
pub open spec fn reports_running_stream(listing: Seq<char>) -> bool {
    exists|start: int, end: int|
        {
            &&& #[trigger] is_line(listing, start, end)
            &&& contains(line_text(listing, start, end), "State:"@)
            &&& contains(line_text(listing, start, end), "RUNNING"@)
        }
}

/// What the PipeWire probe makes of a parsed dump: a verdict for a
/// document, an `InvalidOutput` error with the parser's message for text
/// that is none.
pub open spec fn pipewire_outcome(parsed: Result<JsonModel, Seq<char>>) -> Result<
    AudioStatus,
    ErrorModel,
> {
    match parsed {
        Ok(dump) => Ok(status_of(has_active_node(dump))),
        Err(message) => Err(
            ErrorModel::InvalidOutput("Failed to parse pw-dump output: "@ + message),
        ),
    }
}

/// What a probe makes of the text that its tool printed.
pub open spec fn text_outcome(tool: Tool, printed: Seq<char>) -> Result<AudioStatus, ErrorModel> {
    match tool {
        Tool::PwDump => pipewire_outcome(parse_outcome(printed)),
        Tool::Pactl => Ok(status_of(reports_running_stream(printed))),
    }
}

impl Tool {
    /// The name of the program to look up and to run.
    pub fn program(self) -> (name: &'static str)
        ensures
            name@ == program_name(self),
    {
        match self {
            Tool::PwDump => "pw-dump",
            Tool::Pactl => "pactl",
        }
    }

    /// The arguments to run the program with.
    pub fn arguments(self) -> (arguments: Vec<&'static str>)
        ensures
            arguments@.len() == program_arguments(self).len(),
            forall|i: int|
                0 <= i < arguments@.len() ==> (#[trigger] arguments@[i])@ == program_arguments(
                    self,
                )[i],
    {
        let mut arguments: Vec<&'static str> = Vec::new();
        match self {
            Tool::PwDump => {},
            Tool::Pactl => {
                arguments.push("list");
                arguments.push("sink-inputs");
            },
        }
        arguments
    }

    /// The tool that probes `system`; an incompatible system has none.
    pub fn for_system(system: AudioSystem) -> (tool: Option<Tool>)
        ensures
            tool == tool_of(system),
    {
        match system {
            AudioSystem::PipeWire => Some(Tool::PwDump),
            AudioSystem::PulseAudio => Some(Tool::Pactl),
            AudioSystem::NotCompatible => None,
        }
    }
}

/// The error of a probe whose tool is not installed.
pub fn missing_tool(tool: Tool) -> (error: AudioListenerError)
    ensures
        error@ == missing_tool_error(tool),
{
    match tool {
        Tool::PwDump => AudioListenerError::MissingCommand(
            "pw-dump not found on system".to_owned(),
        ),
        Tool::Pactl => AudioListenerError::MissingCommand("pactl not found on system".to_owned()),
    }
}

/// The error of a probe whose tool could not be run.
pub fn failed_tool(tool: Tool) -> (error: AudioListenerError)
    ensures
        error@ == failed_tool_error(tool),
{
    match tool {
        Tool::PwDump => AudioListenerError::CommandFailed("Failed to execute pw-dump".to_owned()),
        Tool::Pactl => AudioListenerError::CommandFailed("Failed to execute pactl".to_owned()),
    }
}

/// The error of a probe on a machine with neither audio system.
pub fn no_compatible_system() -> (error: AudioListenerError)
    ensures
        error@ == no_system_error(),
{
    AudioListenerError::MissingCommand(
        "Neither PipeWire nor PulseAudio found on system".to_owned(),
    )
}

/// Tells whether a node of a PipeWire dump is active.
pub fn node_active(node: &Json) -> (active: bool)
    ensures
        active == node_is_active(node@),
{
    match node.get("info") {
        Some(info) => match info.get("state") {
            Some(state) => state.is_text("active"),
            None => false,
        },
        None => false,
    }
}

/// The verdict of the PipeWire probe on a dump: `Playing` when one of its
/// nodes is active. A document that is no array has no nodes.
pub fn pipewire_status(dump: &Json) -> (status: AudioStatus)
    ensures
        status == status_of(has_active_node(dump@)),
{
    match dump.as_array() {
        Some(nodes) => {
            let ghost models = item_models(nodes@);
            let mut i: usize = 0;
            while i < nodes.len()
                invariant
                    i <= nodes.len(),
                    models == item_models(nodes@),
                    dump@ == JsonModel::Array(models),
                    forall|j: int| 0 <= j < i ==> !node_is_active(#[trigger] models[j]),
                decreases nodes.len() - i,
            {
                if node_active(&nodes[i]) {
                    assert(node_is_active(models[i as int]));
                    return AudioStatus::Playing;
                }
                i += 1;
            }
            AudioStatus::NotPlaying
        },
        None => AudioStatus::NotPlaying,
    }
}

/// The outcome of the PipeWire probe, given what the parser made of the
/// tool's output.
pub fn pipewire_verdict(parsed: Result<Json, String>) -> (outcome: Result<
    AudioStatus,
    AudioListenerError,
>)
    ensures
        outcome_model(outcome) == pipewire_outcome(
            match parsed {
                Ok(dump) => Ok(dump@),
                Err(message) => Err(message@),
            },
        ),
{
    match parsed {
        Ok(dump) => Ok(pipewire_status(&dump)),
        Err(message) => {
            let mut text = "Failed to parse pw-dump output: ".to_owned();
            text.append(message.as_str());
            Err(AudioListenerError::InvalidOutput(text))
        },
    }
}

/// The verdict of the PulseAudio probe on the list of sink inputs:
/// `Playing` when a line holds both `State:` and `RUNNING`.
pub fn pulseaudio_status(listing: &str) -> (status: AudioStatus)
    ensures
        status == status_of(reports_running_stream(listing@)),
{
    let chars = chars_of(listing);
    let mut needles: Vec<Vec<char>> = Vec::new();
    needles.push(chars_of("State:"));
    needles.push(chars_of("RUNNING"));
    let found = some_line_contains_all(chars.as_slice(), &needles);
    proof {
        let wanted = needle_seqs(needles@);
        assert(wanted.len() == 2);
        assert(wanted[0] == "State:"@);
        assert(wanted[1] == "RUNNING"@);
    }
    AudioStatus::from_activity(found)
}

/// The outcome of the probe that runs `tool`, given the text it printed.
pub fn read_text(tool: Tool, printed: &str) -> (outcome: Result<AudioStatus, AudioListenerError>)
    ensures
        outcome_model(outcome) == text_outcome(tool, printed@),
{
    match tool {
        Tool::PwDump => pipewire_verdict(parse_json(printed)),
        Tool::Pactl => Ok(pulseaudio_status(printed)),
    }
}

/// The outcome of the probe that runs `tool`, given the bytes on its
/// standard output. Bytes that are no UTF-8 are read as U+FFFD.
pub fn read_output(tool: Tool, stdout: &[u8]) -> (outcome: Result<AudioStatus, AudioListenerError>)
    ensures
        outcome_model(outcome) == text_outcome(tool, lossy_text(stdout@)),
{
    let printed = decode_lossy(stdout);
    read_text(tool, printed.as_str())
}

/// The order of the nodes does not matter: two dumps that hold the same
/// nodes, each as often, get the same verdict.
pub proof fn lemma_node_order_is_irrelevant(nodes: Seq<JsonModel>, reordered: Seq<JsonModel>)
    requires
        nodes.to_multiset() == reordered.to_multiset(),
    ensures
        has_active_node(JsonModel::Array(nodes)) == has_active_node(JsonModel::Array(reordered)),
{
    if has_active_node(JsonModel::Array(nodes)) {
        let i = choose|i: int| 0 <= i < nodes.len() && node_is_active(#[trigger] nodes[i]);
        lemma_node_is_found_again(nodes, reordered, i);
    }
    if has_active_node(JsonModel::Array(reordered)) {
        let i = choose|i: int| 0 <= i < reordered.len() && node_is_active(#[trigger] reordered[i]);
        lemma_node_is_found_again(reordered, nodes, i);
    }
}

proof fn lemma_node_is_found_again(nodes: Seq<JsonModel>, reordered: Seq<JsonModel>, at: int)
    requires
        nodes.to_multiset() == reordered.to_multiset(),
        0 <= at < nodes.len(),
        node_is_active(nodes[at]),
    ensures
        has_active_node(JsonModel::Array(reordered)),
{
    nodes.to_multiset_ensures();
    reordered.to_multiset_ensures();
    assert(nodes.contains(nodes[at]));
    assert(reordered.to_multiset().count(nodes[at]) > 0);
    let again = choose|j: int| 0 <= j < reordered.len() && reordered[j] == nodes[at];
    lemma_one_active_node_is_enough(reordered, again);
}

/// One active node is enough, wherever it stands and whatever stands
/// beside it.
pub proof fn lemma_one_active_node_is_enough(nodes: Seq<JsonModel>, at: int)
    requires
        0 <= at < nodes.len(),
        node_is_active(nodes[at]),
    ensures
        has_active_node(JsonModel::Array(nodes)),
{
    assert(node_is_active(JsonModel::Array(nodes)->Array_0[at]));
}

/// A member of another name does not change what a name is looked up to,
/// wherever among the members it is put.
pub proof fn lemma_lookup_skips_other_names(
    members: Seq<MemberModel>,
    at: int,
    extra: MemberModel,
    key: Seq<char>,
)
    requires
        0 <= at <= members.len(),
        extra.name != key,
    ensures
        lookup(members.insert(at, extra), key) == lookup(members, key),
    decreases members.len(),
{
    let longer = members.insert(at, extra);
    if at == 0 {
        assert(longer.drop_first() =~= members);
    } else {
        assert(longer[0] == members[0]);
        assert(longer.drop_first() =~= members.drop_first().insert(at - 1, extra));
        if members[0].name != key {
            lemma_lookup_skips_other_names(members.drop_first(), at - 1, extra, key);
        }
    }
}

/// Members that the probe does not ask for do not matter: a node stays as
/// active as it is when it gets a member other than `info`, or when its
/// `info` gets a member other than `state`.
pub proof fn lemma_unrelated_members_are_irrelevant(
    node: Seq<MemberModel>,
    info: Seq<MemberModel>,
    at: int,
    extra: MemberModel,
)
    ensures
        0 <= at <= node.len() && extra.name != "info"@ ==> node_is_active(
            JsonModel::Object(node.insert(at, extra)),
        ) == node_is_active(JsonModel::Object(node)),
        0 <= at <= info.len() && extra.name != "state"@ ==> node_is_active(
            JsonModel::Object(
                seq![
                    MemberModel {
                        name: "info"@,
                        value: JsonModel::Object(info.insert(at, extra)),
                    },
                ],
            ),
        ) == node_is_active(
            JsonModel::Object(seq![MemberModel { name: "info"@, value: JsonModel::Object(info) }]),
        ),
{
    if 0 <= at <= node.len() && extra.name != "info"@ {
        lemma_lookup_skips_other_names(node, at, extra, "info"@);
    }
    if 0 <= at <= info.len() && extra.name != "state"@ {
        lemma_lookup_skips_other_names(info, at, extra, "state"@);
    }
}

/// Tokens on different lines do not count: where a newline stands between
/// every `State:` and every `RUNNING` of the listing, the listing shows no
/// playback.
pub proof fn lemma_tokens_on_different_lines(listing: Seq<char>)
    requires
        forall|state_at: int, running_at: int|
            #[trigger] occurs_at(listing, "State:"@, state_at) && #[trigger] occurs_at(
                listing,
                "RUNNING"@,
                running_at,
            ) ==> !unbroken(
                listing,
                vstd::math::min(state_at, running_at),
                vstd::math::max(state_at + "State:"@.len(), running_at + "RUNNING"@.len()),
            ),
    ensures
        !reports_running_stream(listing),
{
    if reports_running_stream(listing) {
        let (start, end) = choose|start: int, end: int|
            {
                &&& #[trigger] is_line(listing, start, end)
                &&& contains(line_text(listing, start, end), "State:"@)
                &&& contains(line_text(listing, start, end), "RUNNING"@)
            };
        let line = line_text(listing, start, end);
        let state_at = choose|at: int| occurs_at(line, "State:"@, at);
        let running_at = choose|at: int| occurs_at(line, "RUNNING"@, at);
        lemma_same_line_is_unbroken(
            listing,
            start,
            end,
            "State:"@,
            state_at,
            "RUNNING"@,
            running_at,
        );
        assert(occurs_at(listing, "State:"@, start + state_at));
        assert(occurs_at(listing, "RUNNING"@, start + running_at));
    }
}

/// Tokens on one line count wherever they stand in it: a `State:` and a
/// `RUNNING` with no newline between them, in either order, show playback.
pub proof fn lemma_tokens_on_one_line(listing: Seq<char>, state_at: int, running_at: int)
    requires
        occurs_at(listing, "State:"@, state_at),
        occurs_at(listing, "RUNNING"@, running_at),
        unbroken(
            listing,
            vstd::math::min(state_at, running_at),
            vstd::math::max(state_at + "State:"@.len(), running_at + "RUNNING"@.len()),
        ),
    ensures
        reports_running_stream(listing),
{
    reveal_strlit("State:");
    reveal_strlit("RUNNING");
    lemma_unbroken_is_same_line(listing, "State:"@, state_at, "RUNNING"@, running_at);
}

} // verus!
