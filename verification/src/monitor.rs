//! Monitor power: which display-power command an operation calls for, and
//! the simulated monitors of debug mode.

use crate::audiosys::MonitorStatus;
use crate::config::debug_do;
use crate::config::Settings;
use crate::text::chars_of;
use crate::text::contains;
use crate::text::decode_lossy;
use crate::text::is_line;
use crate::text::line_text;
use crate::text::lossy_text;
use crate::text::needle_seqs;
use crate::text::some_line_contains_all;
use vstd::prelude::*;

verus! {

/// What a monitor operation asks its caller to do.
#[derive(Debug, Clone, Copy, PartialEq, Eq, Structural)]
pub enum MonitorAction {
    /// Ask the compositor for the state of its monitors, and hand the
    /// report to [`MonitorController::monitors_reported`].
    Query,
    /// Send the display-power command for this state; the operation is
    /// then over, in this state.
    Dispatch(MonitorStatus),
    /// Send nothing: the simulated monitors were switched. The operation is
    /// over, in this state.
    Bypass(MonitorStatus),
    /// Send nothing: there is nothing to switch. The operation is over, in
    /// this state.
    Skip(MonitorStatus),
}

/// The monitors of one listener.
#[derive(Debug)]
pub struct MonitorController {
    debug: bool,
    simulated_on: bool,
}

/// What a [`MonitorController`] stands for.
pub struct MonitorModel {
    /// Debug mode: the monitors are simulated, and no command is sent.
    pub debug: bool,
    /// Some simulated monitor is on.
    pub simulated_on: bool,
}

impl View for MonitorController {
    type V = MonitorModel;

    closed spec fn view(&self) -> MonitorModel {
        MonitorModel { debug: self.debug, simulated_on: self.simulated_on }
    }
}

/// The compositor's report shows a monitor that is on: one of its lines
/// holds `dpmsStatus: 1`.
pub open spec fn reports_monitor_on(report: Seq<char>) -> bool {
    exists|start: int, end: int|
        #[trigger] is_line(report, start, end) && contains(
            line_text(report, start, end),
            "dpmsStatus: 1"@,
        )
}

/// How monitors are switched off once it is known whether any is on:
/// nothing is done where none is; debug mode sends nothing either way.
pub open spec fn switch_off(debug: bool, monitors_on: bool) -> MonitorAction {
    if !monitors_on {
        MonitorAction::Skip(MonitorStatus::MonitorOff)
    } else if debug {
        MonitorAction::Bypass(MonitorStatus::MonitorOff)
    } else {
        MonitorAction::Dispatch(MonitorStatus::MonitorOff)
    }
}

/// The controller after a turn-off, and what the turn-off asks for. Debug
/// mode uses up the simulated "on"; otherwise the compositor is asked
/// first.
pub open spec fn turn_off(monitors: MonitorModel) -> (MonitorModel, MonitorAction) {
    if monitors.debug {
        (
            MonitorModel { debug: true, simulated_on: false },
            switch_off(true, monitors.simulated_on),
        )
    } else {
        (monitors, MonitorAction::Query)
    }
}

/// The controller after a turn-on, and what the turn-on asks for. Debug
/// mode switches the simulated monitors on; otherwise the command is sent
/// whatever state the monitors are in.
pub open spec fn turn_on(monitors: MonitorModel) -> (MonitorModel, MonitorAction) {
    if monitors.debug {
        (
            MonitorModel { debug: true, simulated_on: true },
            MonitorAction::Bypass(MonitorStatus::MonitorOn),
        )
    } else {
        (monitors, MonitorAction::Dispatch(MonitorStatus::MonitorOn))
    }
}

/// The command that an action sends to the compositor, as the program and
/// its arguments; empty for an action that sends none.
pub open spec fn command_words(action: MonitorAction) -> Seq<Seq<char>> {
    match action {
        MonitorAction::Query => seq!["hyprctl"@, "monitors"@],
        MonitorAction::Dispatch(MonitorStatus::MonitorOff) => seq![
            "hyprctl"@,
            "dispatch"@,
            "dpms"@,
            "off"@,
        ],
        MonitorAction::Dispatch(MonitorStatus::MonitorOn) => seq![
            "hyprctl"@,
            "dispatch"@,
            "dpms"@,
            "on"@,
        ],
        MonitorAction::Bypass(_) => seq![],
        MonitorAction::Skip(_) => seq![],
    }
}

impl MonitorAction {
    /// The state in which the operation is over once this action is done;
    /// a query leaves it open.
    pub open spec fn outcome(self) -> Option<MonitorStatus> {
        match self {
            MonitorAction::Query => None,
            MonitorAction::Dispatch(status) => Some(status),
            MonitorAction::Bypass(status) => Some(status),
            MonitorAction::Skip(status) => Some(status),
        }
    }

    /// The action sends a command to the compositor.
    pub open spec fn sends_command(self) -> bool {
        self is Query || self is Dispatch
    }

    /// The command to send to the compositor, as the program and its
    /// arguments; empty where the action sends none.
    pub fn command_line(self) -> (words: Vec<&'static str>)
        ensures
            words@.len() == command_words(self).len(),
            forall|i: int|
                0 <= i < words@.len() ==> (#[trigger] words@[i])@ == command_words(self)[i],
            words@.len() > 0 <==> self.sends_command(),
    {
        let mut words: Vec<&'static str> = Vec::new();
        match self {
            MonitorAction::Query => {
                words.push("hyprctl");
                words.push("monitors");
            },
            MonitorAction::Dispatch(status) => {
                words.push("hyprctl");
                words.push("dispatch");
                words.push("dpms");
                match status {
                    MonitorStatus::MonitorOff => words.push("off"),
                    MonitorStatus::MonitorOn => words.push("on"),
                }
            },
            MonitorAction::Bypass(_) => {},
            MonitorAction::Skip(_) => {},
        }
        words
    }

    /// The state in which the operation is over once this action is done;
    /// a query leaves it open.
    pub fn status(self) -> (status: Option<MonitorStatus>)
        ensures
            status == self.outcome(),
    {
        match self {
            MonitorAction::Query => None,
            MonitorAction::Dispatch(status) => Some(status),
            MonitorAction::Bypass(status) => Some(status),
            MonitorAction::Skip(status) => Some(status),
        }
    }
}

/// Tells whether the compositor's report shows a monitor that is on.
pub fn report_shows_monitor_on(report: &str) -> (on: bool)
    ensures
        on == reports_monitor_on(report@),
{
    let chars = chars_of(report);
    let mut needles: Vec<Vec<char>> = Vec::new();
    needles.push(chars_of("dpmsStatus: 1"));
    let found = some_line_contains_all(chars.as_slice(), &needles);
    proof {
        let wanted = needle_seqs(needles@);
        assert(wanted.len() == 1);
        assert(wanted[0] == "dpmsStatus: 1"@);
    }
    found
}

impl MonitorController {
    /// The monitors of a listener at its start: the simulated monitors are
    /// on.
    pub fn new(debug: bool) -> (monitors: MonitorController)
        ensures
            monitors@ == (MonitorModel { debug, simulated_on: true }),
    {
        MonitorController { debug, simulated_on: true }
    }

    /// The monitors of a listener that runs on `settings`.
    pub fn for_settings(settings: &Settings) -> (monitors: MonitorController)
        ensures
            monitors@ == (MonitorModel { debug: settings.debug, simulated_on: true }),
    {
        MonitorController::new(settings.debug)
    }

    /// Whether the monitors are simulated.
    pub fn is_debug(&self) -> (debug: bool)
        ensures
            debug == self@.debug,
    {
        self.debug
    }

    /// Whether some simulated monitor is on.
    pub fn simulated_on(&self) -> (on: bool)
        ensures
            on == self@.simulated_on,
    {
        self.simulated_on
    }

    /// How to switch the monitors off, given whether any is on.
    pub fn switch_off(&self, monitors_on: bool) -> (action: MonitorAction)
        ensures
            action == switch_off(self@.debug, monitors_on),
    {
        if monitors_on {
            let bypass = || -> (action: MonitorAction)
                ensures
                    action == MonitorAction::Bypass(MonitorStatus::MonitorOff),
                {
                    MonitorAction::Bypass(MonitorStatus::MonitorOff)
                };
            let dispatch = || -> (action: MonitorAction)
                ensures
                    action == MonitorAction::Dispatch(MonitorStatus::MonitorOff),
                {
                    MonitorAction::Dispatch(MonitorStatus::MonitorOff)
                };
            debug_do(self.debug, bypass, dispatch)
        } else {
            MonitorAction::Skip(MonitorStatus::MonitorOff)
        }
    }

    /// Turns the monitors off.
    ///
    /// In debug mode the simulated monitors go off, if they were on, and
    /// nothing is sent. Otherwise the compositor has to be asked which
    /// monitors are on; [`MonitorController::monitors_reported`] takes its
    /// report.
    pub fn turn_off_monitors(&mut self) -> (action: MonitorAction)
        ensures
            (final(self)@, action) == turn_off(old(self)@),
    {
        if self.debug {
            let was_on = self.simulated_on;
            self.simulated_on = false;
            self.switch_off(was_on)
        } else {
            MonitorAction::Query
        }
    }

    /// Ends a turn-off with the compositor's report, the bytes on the
    /// standard output of its monitor query: the power command is sent
    /// where a monitor is on, and nothing is done where none is.
    pub fn monitors_reported(&self, stdout: &[u8]) -> (action: MonitorAction)
        ensures
            action == switch_off(self@.debug, reports_monitor_on(lossy_text(stdout@))),
    {
        let report = decode_lossy(stdout);
        self.switch_off(report_shows_monitor_on(report.as_str()))
    }

    /// Turns the monitors on.
    ///
    /// In debug mode the simulated monitors go on and nothing is sent.
    /// Otherwise the power command is sent, whatever state the monitors
    /// are in.
    pub fn turn_on_monitors(&mut self) -> (action: MonitorAction)
        ensures
            (final(self)@, action) == turn_on(old(self)@),
    {
        if self.debug {
            if !self.simulated_on {
                self.simulated_on = true;
            }
            MonitorAction::Bypass(MonitorStatus::MonitorOn)
        } else {
            MonitorAction::Dispatch(MonitorStatus::MonitorOn)
        }
    }
}

/// Every way a turn-off ends, it ends in "off"; every way a turn-on ends,
/// it ends in "on".
pub proof fn lemma_target_state(monitors: MonitorModel, monitors_on: bool)
    ensures
        turn_off(monitors).1.outcome() is Some ==> turn_off(monitors).1.outcome() == Some(
            MonitorStatus::MonitorOff,
        ),
        switch_off(monitors.debug, monitors_on).outcome() == Some(MonitorStatus::MonitorOff),
        turn_on(monitors).1.outcome() == Some(MonitorStatus::MonitorOn),
{
}

/// Debug mode sends no command: no query and no dispatch.
pub proof fn lemma_debug_sends_nothing(monitors: MonitorModel, monitors_on: bool)
    requires
        monitors.debug,
    ensures
        !turn_off(monitors).1.sends_command(),
        !switch_off(monitors.debug, monitors_on).sends_command(),
        !turn_on(monitors).1.sends_command(),
{
}

/// Turning off twice is turning off once: in debug mode the second
/// turn-off finds the simulated monitors off, skips, and leaves them off.
pub proof fn lemma_turn_off_twice(monitors: MonitorModel)
    requires
        monitors.debug,
    ensures
        ({
            let once = turn_off(monitors);
            let twice = turn_off(once.0);
            &&& !once.0.simulated_on
            &&& twice.0 == once.0
            &&& twice.1 == MonitorAction::Skip(MonitorStatus::MonitorOff)
        }),
{
}

/// Where the compositor reports no monitor that is on, a turn-off sends no
/// power command.
pub proof fn lemma_nothing_to_switch_off(debug: bool, report: Seq<char>)
    requires
        !reports_monitor_on(report),
    ensures
        switch_off(debug, reports_monitor_on(report)) == MonitorAction::Skip(
            MonitorStatus::MonitorOff,
        ),
{
}

/// Off, off, on: from simulated monitors that are on, the first turn-off
/// switches them off, the second finds nothing to do, and a turn-on
/// switches them on again.
pub proof fn lemma_off_off_on(monitors: MonitorModel)
    requires
        monitors.debug,
        monitors.simulated_on,
    ensures
        ({
            let first = turn_off(monitors);
            let second = turn_off(first.0);
            let third = turn_on(second.0);
            &&& first.1 == MonitorAction::Bypass(MonitorStatus::MonitorOff)
            &&& !first.0.simulated_on
            &&& second.1 == MonitorAction::Skip(MonitorStatus::MonitorOff)
            &&& !second.0.simulated_on
            &&& third.1 == MonitorAction::Bypass(MonitorStatus::MonitorOn)
            &&& third.0 == monitors
        }),
{
}

} // verus!
