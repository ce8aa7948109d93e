//! One check of the audio status, step by step.
//!
//! A check needs work that only its caller can do: look a tool up, run it,
//! sleep. The check asks for each piece of work with a [`CheckAction`] and
//! takes the answer as a [`CheckEvent`]; between the two it decides which
//! audio system to probe, what the probe's outcome is, and whether that
//! outcome is probed once more.

use crate::audiosys::outcome_model;
use crate::audiosys::AudioListenerError;
use crate::audiosys::AudioStatus;
use crate::audiosys::AudioSystem;
use crate::audiosys::ErrorModel;
use crate::config::Settings;
use crate::debounce::checked_outcome;
use crate::debounce::settled;
use crate::debounce::settlement;
use crate::debounce::DoubleCheck;
use crate::debounce::GuardModel;
use crate::debounce::Settlement;
use crate::debounce::SettlementModel;
use crate::detect::configured_system;
use crate::detect::detected_system;
use crate::detect::name_chars;
use crate::detect::selected_system;
use crate::probe::failed_tool;
use crate::probe::failed_tool_error;
use crate::probe::missing_tool;
use crate::probe::missing_tool_error;
use crate::probe::no_compatible_system;
use crate::probe::no_system_error;
use crate::probe::read_output;
use crate::probe::text_outcome;
use crate::probe::tool_of;
use crate::probe::Tool;
use crate::text::lossy_text;
use vstd::prelude::*;

verus! {

/// Where a check stands.
#[derive(Debug, Clone, Copy, PartialEq, Eq, Structural)]
pub enum Phase {
    /// No check is under way.
    Idle,
    /// Detection has asked whether this tool is installed.
    Detecting(Tool),
    /// The probe has asked whether its tool is installed.
    Locating(Tool),
    /// The probe has asked for its tool to be run.
    Running(Tool),
    /// The double check has asked for its delay.
    Sleeping,
}

/// The work that a check asks its caller for.
#[derive(Debug, PartialEq, Eq)]
pub enum CheckAction {
    /// Look the tool's program up on the execution path, and answer with
    /// [`CheckEvent::Located`].
    Locate(Tool),
    /// Run the tool and capture its standard output, and answer with
    /// [`CheckEvent::Output`] or [`CheckEvent::RunFailed`].
    Run(Tool),
    /// Sleep that many seconds, and answer with [`CheckEvent::Slept`].
    Sleep(u64),
    /// Nothing: the check is over, with this outcome.
    Finish(Result<AudioStatus, AudioListenerError>),
}

/// What a [`CheckAction`] stands for.
pub enum ActionModel {
    Locate(Tool),
    Run(Tool),
    Sleep(u64),
    Finish(Result<AudioStatus, ErrorModel>),
}

/// The answer to a [`CheckAction`].
#[derive(Debug, PartialEq, Eq)]
pub enum CheckEvent {
    /// Whether the tool's program was found.
    Located(bool),
    /// The tool ran, and these bytes are its standard output.
    Output(Vec<u8>),
    /// The tool could not be run.
    RunFailed,
    /// The delay is over.
    Slept,
}

/// What a [`CheckEvent`] stands for.
pub enum EventModel {
    Located(bool),
    Output(Seq<u8>),
    RunFailed,
    Slept,
}

/// The checks of one listener: the audio system that its settings name, its
/// double check, and where the check under way stands.
#[derive(Debug)]
pub struct StatusCheck {
    preset: Option<AudioSystem>,
    guard: DoubleCheck,
    phase: Phase,
}

/// What a [`StatusCheck`] stands for.
pub struct CheckModel {
    /// The audio system that the settings name, if they name one.
    pub preset: Option<AudioSystem>,
    /// The double check.
    pub guard: GuardModel,
    /// Where the check under way stands.
    pub phase: Phase,
}

impl View for CheckAction {
    type V = ActionModel;

    open spec fn view(&self) -> ActionModel {
        match self {
            CheckAction::Locate(tool) => ActionModel::Locate(*tool),
            CheckAction::Run(tool) => ActionModel::Run(*tool),
            CheckAction::Sleep(seconds) => ActionModel::Sleep(*seconds),
            CheckAction::Finish(outcome) => ActionModel::Finish(outcome_model(*outcome)),
        }
    }
}

impl View for CheckEvent {
    type V = EventModel;

    open spec fn view(&self) -> EventModel {
        match self {
            CheckEvent::Located(found) => EventModel::Located(*found),
            CheckEvent::Output(stdout) => EventModel::Output(stdout@),
            CheckEvent::RunFailed => EventModel::RunFailed,
            CheckEvent::Slept => EventModel::Slept,
        }
    }
}

impl View for StatusCheck {
    type V = CheckModel;

    closed spec fn view(&self) -> CheckModel {
        CheckModel { preset: self.preset, guard: self.guard@, phase: self.phase }
    }
}

/// The check in the given phase.
pub open spec fn at_phase(check: CheckModel, phase: Phase) -> CheckModel {
    CheckModel { preset: check.preset, guard: check.guard, phase }
}

/// The probe of one pass has ended in `outcome`: the double check either
/// asks for its delay or lets the outcome stand, which ends the check.
pub open spec fn conclude(check: CheckModel, outcome: Result<AudioStatus, ErrorModel>) -> (
    CheckModel,
    ActionModel,
) {
    let guard = settled(check.guard, outcome);
    match settlement(check.guard, outcome) {
        SettlementModel::Recheck(delay) => (
            CheckModel { preset: check.preset, guard, phase: Phase::Sleeping },
            ActionModel::Sleep(delay),
        ),
        SettlementModel::Final(outcome) => (
            CheckModel { preset: check.preset, guard, phase: Phase::Idle },
            ActionModel::Finish(outcome),
        ),
    }
}

/// The system to probe is known: its probe begins by asking for its tool.
/// With no compatible system nothing is asked for, and the pass ends in an
/// error.
pub open spec fn probe(check: CheckModel, system: AudioSystem) -> (CheckModel, ActionModel) {
    match tool_of(system) {
        Some(tool) => (at_phase(check, Phase::Locating(tool)), ActionModel::Locate(tool)),
        None => conclude(check, Err(no_system_error())),
    }
}

/// A pass begins: the system that the settings name is probed; without one,
/// detection asks for `pw-dump` first.
pub open spec fn start(check: CheckModel) -> (CheckModel, ActionModel) {
    match check.preset {
        Some(system) => probe(check, system),
        None => (
            at_phase(check, Phase::Detecting(Tool::PwDump)),
            ActionModel::Locate(Tool::PwDump),
        ),
    }
}

/// The event answers the action that the check has asked for.
pub open spec fn awaits(check: CheckModel, event: EventModel) -> bool {
    match check.phase {
        Phase::Idle => false,
        Phase::Detecting(_) => event is Located,
        Phase::Locating(_) => event is Located,
        Phase::Running(_) => event is Output || event is RunFailed,
        Phase::Sleeping => event is Slept,
    }
}

/// The check after an event that it awaits, and the action it asks for
/// next. An idle check awaits nothing.
pub open spec fn next(check: CheckModel, event: EventModel) -> (CheckModel, ActionModel)
    recommends
        awaits(check, event),
{
    match check.phase {
        Phase::Idle => start(check),
        Phase::Detecting(Tool::PwDump) => if event == EventModel::Located(true) {
            probe(check, AudioSystem::PipeWire)
        } else {
            (at_phase(check, Phase::Detecting(Tool::Pactl)), ActionModel::Locate(Tool::Pactl))
        },
        Phase::Detecting(Tool::Pactl) => if event == EventModel::Located(true) {
            probe(check, AudioSystem::PulseAudio)
        } else {
            probe(check, AudioSystem::NotCompatible)
        },
        Phase::Locating(tool) => if event == EventModel::Located(true) {
            (at_phase(check, Phase::Running(tool)), ActionModel::Run(tool))
        } else {
            conclude(check, Err(missing_tool_error(tool)))
        },
        Phase::Running(tool) => match event {
            EventModel::Output(stdout) => conclude(check, text_outcome(tool, lossy_text(stdout))),
            _ => conclude(check, Err(failed_tool_error(tool))),
        },
        Phase::Sleeping => start(check),
    }
}

/// What one pass finds when it asks its caller.
pub struct Findings {
    /// Detection asks for `pw-dump`: whether it is installed.
    pub pw_dump_found: bool,
    /// Detection asks for `pactl`: whether it is installed.
    pub pactl_found: bool,
    /// The probe asks for its own tool: whether it is installed.
    pub tool_found: bool,
    /// The probe has its tool run: the standard output, or nothing where
    /// the tool cannot be run.
    pub output: Option<Seq<u8>>,
}

/// The event that answers the action a check has asked for, given what
/// there is to find.
pub open spec fn answer(check: CheckModel, findings: Findings) -> EventModel {
    match check.phase {
        Phase::Detecting(Tool::PwDump) => EventModel::Located(findings.pw_dump_found),
        Phase::Detecting(Tool::Pactl) => EventModel::Located(findings.pactl_found),
        Phase::Locating(_) => EventModel::Located(findings.tool_found),
        Phase::Running(_) => match findings.output {
            Some(stdout) => EventModel::Output(stdout),
            None => EventModel::RunFailed,
        },
        _ => EventModel::Slept,
    }
}

/// The outcome of one pass: the system that is configured or detected is
/// probed by its tool, which has to be installed and to run, and whose
/// output is read.
pub open spec fn pass_outcome(preset: Option<AudioSystem>, findings: Findings) -> Result<
    AudioStatus,
    ErrorModel,
> {
    let system = match preset {
        Some(system) => system,
        None => detected_system(findings.pw_dump_found, findings.pactl_found),
    };
    match tool_of(system) {
        None => Err(no_system_error()),
        Some(tool) => if !findings.tool_found {
            Err(missing_tool_error(tool))
        } else {
            match findings.output {
                Some(stdout) => text_outcome(tool, lossy_text(stdout)),
                None => Err(failed_tool_error(tool)),
            }
        },
    }
}

/// The answer of a whole check: the outcome of its first pass, or of its
/// second pass where the double check asks for one.
pub open spec fn check_outcome(check: CheckModel, first: Findings, second: Findings) -> Result<
    AudioStatus,
    ErrorModel,
> {
    checked_outcome(
        check.guard,
        pass_outcome(check.preset, first),
        pass_outcome(check.preset, second),
    )
}

/// A pass, run: each action that asks for a tool is answered from the
/// findings, for at most `steps` actions, until the check asks to sleep or
/// is over.
pub open spec fn run_pass(
    check: CheckModel,
    action: ActionModel,
    findings: Findings,
    steps: nat,
) -> (CheckModel, ActionModel)
    decreases steps,
{
    if steps == 0 || action is Sleep || action is Finish {
        (check, action)
    } else {
        let after = next(check, answer(check, findings));
        run_pass(after.0, after.1, findings, (steps - 1) as nat)
    }
}

/// A whole check, run: a first pass on the first findings and, where the
/// check asks to sleep, a second pass on the second findings.
pub open spec fn run_check(check: CheckModel, first: Findings, second: Findings) -> (
    CheckModel,
    ActionModel,
) {
    let begun = start(check);
    let once = run_pass(begun.0, begun.1, first, 4);
    if once.1 is Sleep {
        let again = next(once.0, EventModel::Slept);
        run_pass(again.0, again.1, second, 4)
    } else {
        once
    }
}

impl StatusCheck {
    /// The checks of a listener whose settings name `audio_system` and set
    /// the double check to `double_check` seconds. No check is under way.
    pub fn new(audio_system: Option<&str>, double_check: u64) -> (check: StatusCheck)
        ensures
            check@ == (CheckModel {
                preset: configured_system(name_chars(audio_system)),
                guard: GuardModel { delay: double_check, in_flight: false },
                phase: Phase::Idle,
            }),
    {
        StatusCheck {
            preset: selected_system(audio_system),
            guard: DoubleCheck::new(double_check),
            phase: Phase::Idle,
        }
    }

    /// The checks of a listener that runs on `settings`.
    pub fn for_settings(settings: &Settings) -> (check: StatusCheck)
        ensures
            check@ == (CheckModel {
                preset: configured_system(settings.audio_system_name()),
                guard: GuardModel { delay: settings.double_check, in_flight: false },
                phase: Phase::Idle,
            }),
    {
        let name = match &settings.audio_system {
            Some(name) => Some(name.as_str()),
            None => None,
        };
        StatusCheck::new(name, settings.double_check)
    }

    /// Where the check under way stands.
    pub fn phase(&self) -> (phase: Phase)
        ensures
            phase == self@.phase,
    {
        self.phase
    }

    /// The audio system that the settings name, if they name one.
    pub fn preset(&self) -> (preset: Option<AudioSystem>)
        ensures
            preset == self@.preset,
    {
        self.preset
    }

    /// Whether the second probe of a double check is under way.
    pub fn recheck_in_flight(&self) -> (in_flight: bool)
        ensures
            in_flight == self@.guard.in_flight,
    {
        self.guard.in_flight()
    }

    fn conclude(&mut self, outcome: Result<AudioStatus, AudioListenerError>) -> (action:
        CheckAction)
        ensures
            (final(self)@, action@) == conclude(old(self)@, outcome_model(outcome)),
            action is Finish ==> action == CheckAction::Finish(outcome),
    {
        match self.guard.settle(outcome) {
            Settlement::Recheck(delay) => {
                self.phase = Phase::Sleeping;
                CheckAction::Sleep(delay)
            },
            Settlement::Final(outcome) => {
                self.phase = Phase::Idle;
                CheckAction::Finish(outcome)
            },
        }
    }

    fn probe(&mut self, system: AudioSystem) -> (action: CheckAction)
        ensures
            (final(self)@, action@) == probe(old(self)@, system),
    {
        match Tool::for_system(system) {
            Some(tool) => {
                self.phase = Phase::Locating(tool);
                CheckAction::Locate(tool)
            },
            None => self.conclude(Err(no_compatible_system())),
        }
    }

    /// Begins a check, and returns the first action it asks for. A check
    /// that was under way is given up; if it was waiting for its second
    /// probe, the check that begins is that second probe.
    pub fn begin(&mut self) -> (action: CheckAction)
        ensures
            (final(self)@, action@) == start(old(self)@),
    {
        match self.preset {
            Some(system) => self.probe(system),
            None => {
                self.phase = Phase::Detecting(Tool::PwDump);
                CheckAction::Locate(Tool::PwDump)
            },
        }
    }

    /// Takes the answer to the action that the check asked for last, and
    /// returns the action it asks for next.
    ///
    /// An event that answers no such action is given back with `None`, and
    /// changes nothing.
    pub fn step(&mut self, event: CheckEvent) -> (action: Option<CheckAction>)
        ensures
            match action {
                Some(action) => awaits(old(self)@, event@) && (final(self)@, action@) == next(
                    old(self)@,
                    event@,
                ),
                None => !awaits(old(self)@, event@) && final(self)@ == old(self)@,
            },
    {
        match (self.phase, event) {
            (Phase::Detecting(Tool::PwDump), CheckEvent::Located(found)) => {
                if found {
                    Some(self.probe(AudioSystem::PipeWire))
                } else {
                    self.phase = Phase::Detecting(Tool::Pactl);
                    Some(CheckAction::Locate(Tool::Pactl))
                }
            },
            (Phase::Detecting(Tool::Pactl), CheckEvent::Located(found)) => {
                if found {
                    Some(self.probe(AudioSystem::PulseAudio))
                } else {
                    Some(self.probe(AudioSystem::NotCompatible))
                }
            },
            (Phase::Locating(tool), CheckEvent::Located(found)) => {
                if found {
                    self.phase = Phase::Running(tool);
                    Some(CheckAction::Run(tool))
                } else {
                    Some(self.conclude(Err(missing_tool(tool))))
                }
            },
            (Phase::Running(tool), CheckEvent::Output(stdout)) => {
                let outcome = read_output(tool, stdout.as_slice());
                Some(self.conclude(outcome))
            },
            (Phase::Running(tool), CheckEvent::RunFailed) => {
                Some(self.conclude(Err(failed_tool(tool))))
            },
            (Phase::Sleeping, CheckEvent::Slept) => Some(self.begin()),
            _ => None,
        }
    }
}

/// A check that is over leaves no second probe under way: whenever a pass
/// begins or an event is taken and the check finishes, with a verdict or
/// with an error, the double check is idle and so is the check.
pub proof fn lemma_finish_clears_guard(check: CheckModel, event: EventModel)
    ensures
        start(check).1 is Finish ==> !start(check).0.guard.in_flight && start(check).0.phase
            == Phase::Idle,
        next(check, event).1 is Finish ==> !next(check, event).0.guard.in_flight && next(
            check,
            event,
        ).0.phase == Phase::Idle,
{
}

/// The delay is asked for at most once in a check: only with the double
/// check switched on and idle, for exactly its delay, and from then on the
/// second probe is under way.
pub proof fn lemma_sleep_once(check: CheckModel, event: EventModel, seconds: u64)
    requires
        next(check, event).1 == ActionModel::Sleep(seconds),
    ensures
        !check.guard.in_flight,
        seconds == check.guard.delay,
        seconds != 0,
        next(check, event).0.guard.in_flight,
        next(check, event).0.phase == Phase::Sleeping,
{
}

/// Until a pass ends, the double check is left alone.
pub proof fn lemma_pass_keeps_guard(check: CheckModel, event: EventModel)
    requires
        next(check, event).1 is Locate || next(check, event).1 is Run,
    ensures
        next(check, event).0.guard == check.guard,
        next(check, event).0.preset == check.preset,
{
}

/// A system that the settings name is probed without detection: the pass
/// begins by asking for that system's own tool, whatever else is installed.
pub proof fn lemma_preset_skips_detection(check: CheckModel, system: AudioSystem, tool: Tool)
    requires
        check.preset == Some(system),
        tool_of(system) == Some(tool),
    ensures
        start(check) == (at_phase(check, Phase::Locating(tool)), ActionModel::Locate(tool)),
{
}

/// Detection asks for `pw-dump`, then for `pactl` if it must, and then
/// probes the system that the answers point to.
pub proof fn lemma_detection_finds_system(check: CheckModel, pw_dump_found: bool, pactl_found: bool)
    requires
        check.preset is None,
    ensures
        ({
            let asked = start(check);
            let first = next(asked.0, EventModel::Located(pw_dump_found));
            let found = probe(check, detected_system(pw_dump_found, pactl_found));
            &&& asked.1 == ActionModel::Locate(Tool::PwDump)
            &&& pw_dump_found ==> first == found
            &&& !pw_dump_found ==> first.1 == ActionModel::Locate(Tool::Pactl) && next(
                first.0,
                EventModel::Located(pactl_found),
            ) == found
        }),
{
}

/// Without a compatible system no tool is run: the pass ends at once, in
/// the error that says so, and that error is never probed again.
pub proof fn lemma_no_system_runs_nothing(check: CheckModel)
    ensures
        probe(check, AudioSystem::NotCompatible).1 == ActionModel::Finish(
            Err(no_system_error()),
        ),
        probe(check, AudioSystem::NotCompatible).0.phase == Phase::Idle,
        !probe(check, AudioSystem::NotCompatible).0.guard.in_flight,
{
}

/// A tool is run only after it was found: the check asks for a run in
/// answer to nothing but the news that the probe's own tool is installed.
pub proof fn lemma_run_follows_locate(check: CheckModel, event: EventModel, tool: Tool)
    requires
        awaits(check, event),
        next(check, event).1 == ActionModel::Run(tool),
    ensures
        check.phase == Phase::Locating(tool),
        event == EventModel::Located(true),
        next(check, event).0.phase == Phase::Running(tool),
{
}

/// A pass takes at most four actions, and then its outcome goes to the
/// double check: from the beginning of a pass, answering what the check
/// asks for leads to where `conclude` leads from the pass's outcome.
pub proof fn lemma_pass_concludes(check: CheckModel, findings: Findings)
    ensures
        run_pass(start(check).0, start(check).1, findings, 4) == conclude(
            check,
            pass_outcome(check.preset, findings),
        ),
{
    reveal_with_fuel(run_pass, 5);
}

/// What a check answers. Run from its beginning, with every action
/// answered, a check is over after one pass or two; it finishes with the
/// answer that `check_outcome` gives, and leaves the check idle and no
/// second probe under way.
pub proof fn lemma_check_answers(check: CheckModel, first: Findings, second: Findings)
    ensures
        run_check(check, first, second) == (
            CheckModel {
                preset: check.preset,
                guard: GuardModel { delay: check.guard.delay, in_flight: false },
                phase: Phase::Idle,
            },
            ActionModel::Finish(check_outcome(check, first, second)),
        ),
{
    lemma_pass_concludes(check, first);
    let once = conclude(check, pass_outcome(check.preset, first));
    if once.1 is Sleep {
        assert(next(once.0, EventModel::Slept) == start(once.0));
        lemma_pass_concludes(once.0, second);
    }
}

/// The second pass decides. With the double check switched on and idle, a
/// check whose first pass says "not playing" finishes with whatever its
/// second pass ends in, a verdict or an error; no second probe is under
/// way before the check or after it.
pub proof fn lemma_second_pass_decides(check: CheckModel, first: Findings, second: Findings)
    requires
        check.guard.delay != 0,
        !check.guard.in_flight,
        pass_outcome(check.preset, first) == Ok::<AudioStatus, ErrorModel>(
            AudioStatus::NotPlaying,
        ),
    ensures
        run_check(check, first, second).1 == ActionModel::Finish(
            pass_outcome(check.preset, second),
        ),
        !run_check(check, first, second).0.guard.in_flight,
{
    lemma_check_answers(check, first, second);
}

/// The first pass decides wherever it does not say "not playing", and
/// wherever the double check is switched off.
pub proof fn lemma_first_pass_decides(check: CheckModel, first: Findings, second: Findings)
    requires
        check.guard.delay == 0 || pass_outcome(check.preset, first) != Ok::<
            AudioStatus,
            ErrorModel,
        >(AudioStatus::NotPlaying),
    ensures
        run_check(check, first, second).1 == ActionModel::Finish(
            pass_outcome(check.preset, first),
        ),
        !run_check(check, first, second).0.guard.in_flight,
{
    lemma_check_answers(check, first, second);
}

} // verus!
