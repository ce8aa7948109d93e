use hypridle_audio_listener::audiosys::MonitorStatus;
use hypridle_audio_listener::config::Settings;
use hypridle_audio_listener::monitor::{report_shows_monitor_on, MonitorAction, MonitorController};

const MONITORS_ON: &[u8] = b"Monitor DP-1 (ID 0):\n\t2560x1440@59.95 at 0x0\n\tdpmsStatus: 1\n\tvrr: false\n\nMonitor DP-2 (ID 1):\n\tdpmsStatus: 0\n";

const MONITORS_OFF: &[u8] = b"Monitor DP-1 (ID 0):\n\t2560x1440@59.95 at 0x0\n\tdpmsStatus: 0\n\tvrr: false\n";

#[test]
fn verify_monitor_off() {
    let mut monitors = MonitorController::new(true);
    assert_eq!(monitors.turn_off_monitors().status(), Some(MonitorStatus::MonitorOff));
}

#[test]
fn verify_monitor_on() {
    let mut monitors = MonitorController::new(true);
    assert_eq!(monitors.turn_on_monitors().status(), Some(MonitorStatus::MonitorOn));
}

#[test]
fn simulated_monitors_start_on() {
    assert!(MonitorController::new(true).simulated_on());
    assert!(MonitorController::new(true).is_debug());
    assert!(!MonitorController::new(false).is_debug());
}

#[test]
fn monitors_for_settings_take_their_debug_mode() {
    let mut settings = Settings::default();
    assert!(!MonitorController::for_settings(&settings).is_debug());
    settings.debug = true;
    let monitors = MonitorController::for_settings(&settings);
    assert!(monitors.is_debug());
    assert!(monitors.simulated_on());
}

#[test]
fn command_lines_of_the_actions() {
    assert_eq!(MonitorAction::Query.command_line(), vec!["hyprctl", "monitors"]);
    assert_eq!(
        MonitorAction::Dispatch(MonitorStatus::MonitorOff).command_line(),
        vec!["hyprctl", "dispatch", "dpms", "off"]
    );
    assert_eq!(
        MonitorAction::Dispatch(MonitorStatus::MonitorOn).command_line(),
        vec!["hyprctl", "dispatch", "dpms", "on"]
    );
    assert_eq!(MonitorAction::Bypass(MonitorStatus::MonitorOff).command_line(), Vec::<&str>::new());
    assert_eq!(MonitorAction::Skip(MonitorStatus::MonitorOff).command_line(), Vec::<&str>::new());
}

#[test]
fn debug_off_off_on() {
    let mut monitors = MonitorController::new(true);
    assert!(monitors.simulated_on());
    let first = monitors.turn_off_monitors();
    assert_eq!(first, MonitorAction::Bypass(MonitorStatus::MonitorOff));
    assert_eq!(first.status(), Some(MonitorStatus::MonitorOff));
    assert!(!monitors.simulated_on());
    let second = monitors.turn_off_monitors();
    assert_eq!(second, MonitorAction::Skip(MonitorStatus::MonitorOff));
    assert_eq!(second.status(), Some(MonitorStatus::MonitorOff));
    assert!(!monitors.simulated_on());
    let third = monitors.turn_on_monitors();
    assert_eq!(third, MonitorAction::Bypass(MonitorStatus::MonitorOn));
    assert_eq!(third.status(), Some(MonitorStatus::MonitorOn));
    assert!(monitors.simulated_on());
}

#[test]
fn debug_turn_on_twice_stays_on() {
    let mut monitors = MonitorController::new(true);
    assert_eq!(monitors.turn_on_monitors(), MonitorAction::Bypass(MonitorStatus::MonitorOn));
    assert_eq!(monitors.turn_on_monitors(), MonitorAction::Bypass(MonitorStatus::MonitorOn));
    assert!(monitors.simulated_on());
}

#[test]
fn real_turn_off_asks_the_compositor_first() {
    let mut monitors = MonitorController::new(false);
    let action = monitors.turn_off_monitors();
    assert_eq!(action, MonitorAction::Query);
    assert_eq!(action.status(), None);
    assert!(monitors.simulated_on());
}

#[test]
fn real_turn_off_dispatches_when_a_monitor_is_on() {
    let monitors = MonitorController::new(false);
    assert_eq!(
        monitors.monitors_reported(MONITORS_ON),
        MonitorAction::Dispatch(MonitorStatus::MonitorOff)
    );
}

#[test]
fn real_turn_off_twice_sends_the_command_once() {
    let mut monitors = MonitorController::new(false);
    assert_eq!(monitors.turn_off_monitors(), MonitorAction::Query);
    let first = monitors.monitors_reported(MONITORS_ON);
    assert_eq!(first, MonitorAction::Dispatch(MonitorStatus::MonitorOff));
    assert_eq!(first.status(), Some(MonitorStatus::MonitorOff));
    assert_eq!(monitors.turn_off_monitors(), MonitorAction::Query);
    let second = monitors.monitors_reported(MONITORS_OFF);
    assert_eq!(second, MonitorAction::Skip(MonitorStatus::MonitorOff));
    assert_eq!(second.status(), Some(MonitorStatus::MonitorOff));
}

#[test]
fn real_turn_on_always_dispatches() {
    let mut monitors = MonitorController::new(false);
    assert_eq!(monitors.turn_on_monitors(), MonitorAction::Dispatch(MonitorStatus::MonitorOn));
    assert_eq!(monitors.turn_on_monitors(), MonitorAction::Dispatch(MonitorStatus::MonitorOn));
}

#[test]
fn debug_mode_sends_nothing_even_on_a_report() {
    let monitors = MonitorController::new(true);
    assert_eq!(
        monitors.monitors_reported(MONITORS_ON),
        MonitorAction::Bypass(MonitorStatus::MonitorOff)
    );
    assert_eq!(
        monitors.monitors_reported(MONITORS_OFF),
        MonitorAction::Skip(MonitorStatus::MonitorOff)
    );
}

#[test]
fn switch_off_by_mode_and_state() {
    let real = MonitorController::new(false);
    let debug = MonitorController::new(true);
    assert_eq!(real.switch_off(true), MonitorAction::Dispatch(MonitorStatus::MonitorOff));
    assert_eq!(real.switch_off(false), MonitorAction::Skip(MonitorStatus::MonitorOff));
    assert_eq!(debug.switch_off(true), MonitorAction::Bypass(MonitorStatus::MonitorOff));
    assert_eq!(debug.switch_off(false), MonitorAction::Skip(MonitorStatus::MonitorOff));
}

#[test]
fn the_report_shows_a_monitor_on_by_its_dpms_line() {
    assert!(report_shows_monitor_on("dpmsStatus: 1"));
    assert!(report_shows_monitor_on("a\n\tdpmsStatus: 1\r\nb"));
    assert!(report_shows_monitor_on("\tdpmsStatus: 0\n\tdpmsStatus: 1\n"));
    assert!(!report_shows_monitor_on("\tdpmsStatus: 0\n"));
    assert!(!report_shows_monitor_on(""));
    assert!(!report_shows_monitor_on("dpmsStatus:\n 1"));
    assert!(!report_shows_monitor_on("dpmsStatus:1"));
    assert!(!report_shows_monitor_on("dpmsstatus: 1"));
}

#[test]
fn a_report_with_bad_bytes_is_still_read() {
    let monitors = MonitorController::new(false);
    assert_eq!(
        monitors.monitors_reported(b"\xff\tdpmsStatus: 1\n"),
        MonitorAction::Dispatch(MonitorStatus::MonitorOff)
    );
    assert_eq!(
        monitors.monitors_reported(b"dpmsStatus:\xff 1\n"),
        MonitorAction::Skip(MonitorStatus::MonitorOff)
    );
}
