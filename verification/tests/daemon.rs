use bedtime::clock::{Span, TimeOfDay};
use bedtime::daemon::{ChannelProbe, Daemon, Inbound, Phase, StartPlan};
use bedtime::flag::FlagRecord;
use bedtime::protocol::Command;
use bedtime::trigger::{bedtime_actions, Action};
use bedtime::window::Schedule;

fn hms(h: u32, m: u32, s: u32) -> TimeOfDay {
    TimeOfDay::from_hms(h, m, s).unwrap()
}

fn running() -> Daemon {
    let mut d = Daemon::new(Schedule::standard());
    assert_eq!(d.plan_start(ChannelProbe::Absent), StartPlan::Bind);
    assert!(d.finish_start(true, true));
    d
}

#[test]
fn a_new_daemon_is_starting() {
    let d = Daemon::new(Schedule::standard());
    assert_eq!(d.phase, Phase::Starting);
    assert!(!d.warned);
    assert!(!d.is_running());
    assert_eq!(d.schedule, Schedule::standard());
}

#[test]
fn start_over_a_stale_channel_removes_it() {
    let mut d = Daemon::new(Schedule::standard());
    assert_eq!(d.plan_start(ChannelProbe::Stale), StartPlan::RemoveStaleThenBind);
    assert_eq!(d.phase, Phase::Starting);
    assert!(d.finish_start(true, true));
    assert_eq!(d.phase, Phase::Running);
    assert!(d.is_running());
}

#[test]
fn second_start_is_refused() {
    let first = running();
    let mut second = Daemon::new(Schedule::standard());
    assert_eq!(second.plan_start(ChannelProbe::Live), StartPlan::Refuse);
    assert_eq!(second.phase, Phase::Stopped);
    assert!(!second.finish_start(true, true));
    assert_eq!(second.phase, Phase::Stopped);
    let mut flag = FlagRecord::absent();
    assert!(second.tick(&hms(23, 0, 0), &mut flag).is_empty());
    assert!(!flag.get_triggered());
    assert!(first.is_running());
}

#[test]
fn start_fails_without_store_or_channel() {
    for (store, channel) in [(false, true), (true, false), (false, false)] {
        let mut d = Daemon::new(Schedule::standard());
        d.plan_start(ChannelProbe::Absent);
        assert!(!d.finish_start(store, channel));
        assert_eq!(d.phase, Phase::Stopped);
    }
}

#[test]
fn probe_of_a_running_daemon_changes_nothing() {
    let mut d = running();
    assert_eq!(d.plan_start(ChannelProbe::Live), StartPlan::Refuse);
    assert_eq!(d.phase, Phase::Running);
    assert!(d.finish_start(false, false));
    assert_eq!(d.phase, Phase::Running);
}

#[test]
fn tick_inside_the_window_fires_once() {
    let mut d = running();
    let mut flag = FlagRecord::absent();
    assert_eq!(d.tick(&hms(22, 0, 0), &mut flag), bedtime_actions());
    assert!(flag.get_triggered());
    assert!(d.tick(&hms(22, 0, 1), &mut flag).is_empty());
    assert!(d.tick(&hms(23, 59, 59), &mut flag).is_empty());
    assert!(d.tick(&hms(0, 0, 0), &mut flag).is_empty());
    assert!(d.tick(&hms(5, 0, 0), &mut flag).is_empty());
    assert!(flag.get_triggered());
}

#[test]
fn tick_outside_the_window_lowers_the_flag() {
    let mut d = running();
    let mut flag = FlagRecord::from_raw(Some(b"true".to_vec()));
    assert_eq!(d.tick(&hms(5, 0, 1), &mut flag), vec![Action::SetTriggered(false)]);
    assert!(!flag.get_triggered());
    assert!(d.tick(&hms(5, 0, 2), &mut flag).is_empty());
    assert!(d.tick(&hms(12, 0, 0), &mut flag).is_empty());
    assert!(!flag.get_triggered());
}

#[test]
fn tick_fires_again_in_the_next_window() {
    let mut d = running();
    let mut flag = FlagRecord::absent();
    assert_eq!(d.tick(&hms(23, 0, 0), &mut flag).len(), 3);
    assert_eq!(d.tick(&hms(4, 0, 0), &mut flag).len(), 0);
    assert_eq!(d.tick(&hms(6, 0, 0), &mut flag), vec![Action::SetTriggered(false)]);
    assert_eq!(d.tick(&hms(22, 30, 0), &mut flag), bedtime_actions());
}

#[test]
fn tick_warns_once_in_a_run() {
    let mut d = running();
    let mut flag = FlagRecord::absent();
    assert!(d.tick(&hms(21, 39, 59), &mut flag).is_empty());
    assert!(!d.warned);
    assert_eq!(d.tick(&hms(21, 50, 0), &mut flag), vec![Action::NotifyWarning]);
    assert!(d.warned);
    assert!(d.tick(&hms(21, 50, 1), &mut flag).is_empty());
    assert_eq!(d.tick(&hms(22, 0, 0), &mut flag), bedtime_actions());
    assert_eq!(d.tick(&hms(6, 0, 0), &mut flag), vec![Action::SetTriggered(false)]);
    assert!(d.tick(&hms(21, 50, 0), &mut flag).is_empty());
    assert!(d.warned);
    assert!(!flag.get_triggered());
}

#[test]
fn tick_puts_the_flag_before_the_warning() {
    let mut d = running();
    let mut flag = FlagRecord::from_raw(Some(b"true".to_vec()));
    assert_eq!(
        d.tick(&hms(21, 55, 0), &mut flag),
        vec![Action::SetTriggered(false), Action::NotifyWarning]
    );
    assert!(d.warned);
    assert!(!flag.get_triggered());
}

#[test]
fn a_daemon_that_does_not_run_does_nothing() {
    let mut d = Daemon::new(Schedule::standard());
    let mut flag = FlagRecord::absent();
    assert!(d.tick(&hms(23, 0, 0), &mut flag).is_empty());
    assert!(d.tick(&hms(21, 50, 0), &mut flag).is_empty());
    assert!(!d.warned);
    assert!(!flag.get_triggered());
    assert_eq!(flag.into_raw(), None);
}

#[test]
fn stop_ends_the_daemon() {
    let mut d = running();
    let mut flag = FlagRecord::from_raw(Some(b"true".to_vec()));
    let out = d.handle_line("stop\n", &hms(12, 0, 0), &mut flag);
    assert_eq!(out.response, "Ending daemon...");
    assert!(out.stop);
    assert!(out.actions.is_empty());
    assert!(!out.dry_run);
    assert_eq!(d.phase, Phase::Stopping);
    assert!(!d.is_running());
    assert!(d.tick(&hms(23, 0, 0), &mut flag).is_empty());
    assert!(d.finish_stop());
    assert_eq!(d.phase, Phase::Stopped);
    assert!(!d.finish_stop());
    assert_eq!(d.phase, Phase::Stopped);
    assert!(flag.get_triggered());
}

#[test]
fn finish_stop_of_a_running_daemon_does_nothing() {
    let mut d = running();
    assert!(!d.finish_stop());
    assert_eq!(d.phase, Phase::Running);
}

#[test]
fn reset_lowers_the_flag_whatever_it_was() {
    for raw in [None, Some(b"true".to_vec()), Some(b"false".to_vec()), Some(b"junk".to_vec())] {
        let mut d = running();
        let mut flag = FlagRecord::from_raw(raw);
        let out = d.handle_line("reset\n", &hms(23, 0, 0), &mut flag);
        assert_eq!(out.response, "Reset variables.");
        assert!(!out.stop);
        assert!(!out.dry_run);
        assert_eq!(out.actions, vec![Action::SetTriggered(false)]);
        assert!(!flag.get_triggered());
        assert_eq!(flag.into_raw(), Some(b"false".to_vec()));
        assert_eq!(d.phase, Phase::Running);
    }
}

#[test]
fn reset_inside_the_window_lets_the_next_tick_fire() {
    let mut d = running();
    let mut flag = FlagRecord::absent();
    assert_eq!(d.tick(&hms(23, 0, 0), &mut flag).len(), 3);
    d.handle_command(Command::Reset, &hms(23, 0, 1), &mut flag);
    assert_eq!(d.tick(&hms(23, 0, 2), &mut flag), bedtime_actions());
}

#[test]
fn status_answers_by_the_window() {
    let mut d = running();
    let mut flag = FlagRecord::absent();
    let out = d.handle_line("status\n", &hms(23, 30, 0), &mut flag);
    assert_eq!(out.response, "\nStatus: ASLEEP\nTime for bed.");
    assert!(!out.stop && !out.dry_run && out.actions.is_empty());
    let out = d.handle_line(" status ", &hms(6, 0, 0), &mut flag);
    assert_eq!(out.response, "\nStatus: AWAKE\nTime Left: 16:00:00.00\n");
    assert_eq!(d.phase, Phase::Running);
    assert_eq!(flag.into_raw(), None);
}

#[test]
fn test_rehearses_and_changes_nothing() {
    let mut d = running();
    let mut flag = FlagRecord::absent();
    let out = d.handle_line("test\n", &hms(12, 0, 0), &mut flag);
    assert_eq!(out.response, "Dry run: set triggered, start playback, notify shutdown.");
    assert!(out.dry_run);
    assert!(!out.stop);
    assert_eq!(out.actions, bedtime_actions());
    assert!(!flag.get_triggered());
    assert_eq!(flag.into_raw(), None);
    assert_eq!(d, running());
}

#[test]
fn an_unknown_line_is_answered_and_changes_nothing() {
    for line in ["", "\n", "halt\n", "STOP\n", "status now\n", "\u{0}"] {
        let mut d = running();
        let mut flag = FlagRecord::from_raw(Some(b"true".to_vec()));
        let out = d.handle_line(line, &hms(12, 0, 0), &mut flag);
        assert_eq!(out.response, "Error: Invalid command.");
        assert!(!out.stop && !out.dry_run && out.actions.is_empty());
        assert_eq!(d, running());
        assert_eq!(flag.into_raw(), Some(b"true".to_vec()));
    }
}

#[test]
fn stop_before_the_start_is_answered_only() {
    let mut d = Daemon::new(Schedule::standard());
    let mut flag = FlagRecord::absent();
    let out = d.handle_command(Command::Stop, &hms(12, 0, 0), &mut flag);
    assert_eq!(out.response, "Ending daemon...");
    assert!(out.stop);
    assert_eq!(d.phase, Phase::Starting);
}

#[test]
fn a_schedule_of_its_own() {
    let schedule = Schedule::new(hms(20, 0, 0), hms(8, 0, 0), Span::from_secs(300));
    let mut d = Daemon::new(schedule);
    d.plan_start(ChannelProbe::Absent);
    d.finish_start(true, true);
    let mut flag = FlagRecord::absent();
    assert!(d.tick(&hms(19, 54, 59), &mut flag).is_empty());
    assert_eq!(d.tick(&hms(19, 55, 1), &mut flag), vec![Action::NotifyWarning]);
    assert_eq!(d.tick(&hms(20, 0, 0), &mut flag), bedtime_actions());
    assert_eq!(d.tick(&hms(8, 0, 0), &mut flag), vec![]);
    assert_eq!(d.tick(&hms(8, 0, 1), &mut flag), vec![Action::SetTriggered(false)]);
}

#[test]
fn no_line_means_nothing_happens() {
    for inbound in [Inbound::Idle, Inbound::Dropped] {
        let mut d = running();
        let mut flag = FlagRecord::from_raw(Some(b"true".to_vec()));
        assert!(d.handle_input(&inbound, &hms(23, 0, 0), &mut flag).is_none());
        assert_eq!(d, running());
        assert_eq!(flag.into_raw(), Some(b"true".to_vec()));
    }
}

#[test]
fn a_line_is_answered_as_its_command() {
    let mut d = running();
    let mut flag = FlagRecord::from_raw(Some(b"true".to_vec()));
    let out = d
        .handle_input(&Inbound::Line(String::from("reset\n")), &hms(23, 0, 0), &mut flag)
        .unwrap();
    assert_eq!(out.response, "Reset variables.");
    assert!(!flag.get_triggered());
    let out = d
        .handle_input(&Inbound::Line(String::new()), &hms(23, 0, 0), &mut flag)
        .unwrap();
    assert_eq!(out.response, "Error: Invalid command.");
    let out = d
        .handle_input(&Inbound::Line(String::from("stop")), &hms(23, 0, 0), &mut flag)
        .unwrap();
    assert!(out.stop);
    assert_eq!(d.phase, Phase::Stopping);
}

#[test]
fn a_step_ticks_and_then_serves_one_connection() {
    let mut d = running();
    let mut flag = FlagRecord::absent();
    let step = d.step(&hms(23, 0, 0), &mut flag, &Inbound::Idle);
    assert_eq!(step.actions, bedtime_actions());
    assert!(step.outcome.is_none());
    assert!(flag.get_triggered());

    let step = d.step(&hms(23, 0, 1), &mut flag, &Inbound::Line(String::from("status\n")));
    assert!(step.actions.is_empty());
    assert_eq!(step.outcome.unwrap().response, "\nStatus: ASLEEP\nTime for bed.");

    let step = d.step(&hms(23, 0, 2), &mut flag, &Inbound::Line(String::from("reset\n")));
    assert!(step.actions.is_empty());
    assert_eq!(step.outcome.unwrap().actions, vec![Action::SetTriggered(false)]);
    assert!(!flag.get_triggered());

    let step = d.step(&hms(23, 0, 3), &mut flag, &Inbound::Dropped);
    assert_eq!(step.actions, bedtime_actions());
    assert!(step.outcome.is_none());
}

#[test]
fn stop_takes_effect_within_one_step() {
    let mut d = running();
    let mut flag = FlagRecord::absent();
    let step = d.step(&hms(12, 0, 0), &mut flag, &Inbound::Line(String::from("stop\n")));
    assert!(step.actions.is_empty());
    let out = step.outcome.unwrap();
    assert_eq!(out.response, "Ending daemon...");
    assert!(out.stop);
    assert!(!d.is_running());
    let step = d.step(&hms(23, 0, 0), &mut flag, &Inbound::Idle);
    assert!(step.actions.is_empty());
    assert!(step.outcome.is_none());
    assert!(d.finish_stop());
    assert_eq!(d.phase, Phase::Stopped);
}

#[test]
fn every_line_gets_a_reply_with_text() {
    for now in [hms(23, 30, 0), hms(6, 0, 0), hms(22, 0, 0), hms(21, 50, 0)] {
        for line in ["status\n", "stop\n", "reset\n", "test\n", "nonsense\n", "", " test "] {
            let mut d = running();
            let mut flag = FlagRecord::absent();
            let out = d.handle_line(line, &now, &mut flag);
            assert!(!out.response.is_empty(), "line {:?}", line);
        }
    }
}

#[test]
fn test_is_acknowledged_and_keeps_the_daemon_running() {
    let mut d = running();
    let mut flag = FlagRecord::from_raw(Some(b"false".to_vec()));
    let out = d
        .handle_input(&Inbound::Line(String::from("test\n")), &hms(23, 0, 0), &mut flag)
        .unwrap();
    assert_eq!(out.response, "Dry run: set triggered, start playback, notify shutdown.");
    assert_ne!(out.response, "Error: Invalid command.");
    assert!(!out.stop);
    assert!(out.dry_run);
    assert!(d.is_running());
    assert_eq!(flag.into_raw(), Some(b"false".to_vec()));
    let step = d.step(&hms(12, 0, 0), &mut flag_record_down(), &Inbound::Line(String::from("test")));
    assert!(step.actions.is_empty());
    assert_eq!(
        step.outcome.unwrap().response,
        "Dry run: set triggered, start playback, notify shutdown."
    );
    assert!(d.is_running());
}

fn flag_record_down() -> FlagRecord {
    FlagRecord::from_raw(Some(b"false".to_vec()))
}
