//! The daemon as a state machine. It decides; whoever runs it reads the
//! clock and the store, hands both in, and carries out the actions that come
//! back, in their order.

use crate::clock::TimeOfDay;
use crate::flag::{flag_bytes, flag_of, lemma_flag_round_trip, FlagRecord};
use crate::protocol::{
    command_of, invalid_text, parse_command, reset_text, status_response, status_text, stop_text,
    test_text, trimmed, Command,
};
use crate::trigger::{
    bedtime_actions, bedtime_sequence, flag_after, has_outside_effect,
    lemma_bedtime_sequence_raises_flag, on_enter_asleep, on_enter_awake, on_warning, Action,
};
use crate::window::Schedule;
use vstd::prelude::*;
use vstd::string::StringExecFns;

verus! {

/// Where the daemon stands in its life.
#[derive(Clone, Copy, Debug, PartialEq, Eq, Structural)]
pub enum Phase {
    Starting,
    Running,
    Stopping,
    Stopped,
}

/// What a look at the control channel's address found before the start.
#[derive(Clone, Copy, Debug, PartialEq, Eq, Structural)]
pub enum ChannelProbe {
    /// Nothing is there.
    Absent,
    /// Something is there and nobody answers.
    Stale,
    /// A daemon answers.
    Live,
}

/// How to go on after the probe.
#[derive(Clone, Copy, Debug, PartialEq, Eq, Structural)]
pub enum StartPlan {
    /// Bind the channel.
    Bind,
    /// Remove what was left behind, then bind the channel.
    RemoveStaleThenBind,
    /// Another daemon runs: give up and leave it untouched.
    Refuse,
}

/// The daemon's own state. The trigger flag is not part of it: it lives in
/// the store and is handed in with every tick.
#[derive(Clone, Copy, Debug, PartialEq, Eq, Structural)]
pub struct Daemon {
    pub schedule: Schedule,
    pub phase: Phase,
    /// The warning before bed has been given in this run.
    pub warned: bool,
}

/// What one line on the control channel leads to.
#[derive(Clone, Debug)]
pub struct Outcome {
    /// The one response to write back, once the actions are done.
    pub response: String,
    /// The daemon is to end.
    pub stop: bool,
    /// What to do, in this order.
    pub actions: Vec<Action>,
    /// The actions are a rehearsal: they are to be shown, not carried out.
    pub dry_run: bool,
}

/// What the listener found when it looked for a connection.
#[derive(Clone, Debug)]
pub enum Inbound {
    /// Nobody is waiting. This is no error.
    Idle,
    /// A peer connected and was gone before its line came.
    Dropped,
    /// The line that a peer sent.
    Line(String),
}

/// What one round of the daemon's loop leads to.
#[derive(Clone, Debug)]
pub struct Step {
    /// What the clock calls for, in this order.
    pub actions: Vec<Action>,
    /// What the connection that was served leads to, if there was one.
    pub outcome: Option<Outcome>,
}

/// The command that the listener's find stands for: only a line is one.
pub open spec fn inbound_command(inbound: Inbound) -> Option<Command> {
    match inbound {
        Inbound::Line(line) => Some(command_of(trimmed(line@))),
        _ => None,
    }
}

/// What the window calls for at `now`, given the stored flag.
pub open spec fn window_actions(schedule: Schedule, now: TimeOfDay, triggered: bool) -> Seq<
    Action,
> {
    if schedule.asleep_at(now) {
        if triggered {
            Seq::empty()
        } else {
            bedtime_sequence()
        }
    } else if triggered {
        seq![Action::SetTriggered(false)]
    } else {
        Seq::empty()
    }
}

/// Whether a tick at `now` gives the warning.
pub open spec fn warning_due(schedule: Schedule, warned: bool, now: TimeOfDay) -> bool {
    !warned && schedule.warns_at(now)
}

/// The actions of one tick of a running daemon: first what the window calls
/// for, then the warning where it is due.
pub open spec fn tick_actions(d: Daemon, now: TimeOfDay, triggered: bool) -> Seq<Action> {
    if d.phase != Phase::Running {
        Seq::empty()
    } else if warning_due(d.schedule, d.warned, now) {
        window_actions(d.schedule, now, triggered).push(Action::NotifyWarning)
    } else {
        window_actions(d.schedule, now, triggered)
    }
}

/// The daemon after one tick.
pub open spec fn tick_state(d: Daemon, now: TimeOfDay) -> Daemon {
    if d.phase == Phase::Running && warning_due(d.schedule, d.warned, now) {
        Daemon { warned: true, ..d }
    } else {
        d
    }
}

/// The stored bytes after one tick: a running daemon raises the flag inside
/// the asleep window and lowers it outside, and writes only where that
/// changes the flag.
pub open spec fn tick_record(d: Daemon, now: TimeOfDay, before: Option<Seq<u8>>) -> Option<
    Seq<u8>,
> {
    if d.phase != Phase::Running || flag_of(before) == d.schedule.asleep_at(now) {
        before
    } else {
        Some(flag_bytes(d.schedule.asleep_at(now)))
    }
}

/// The stored bytes after a command: only `reset` writes.
pub open spec fn command_record(command: Command, before: Option<Seq<u8>>) -> Option<Seq<u8>> {
    if command == Command::Reset {
        Some(flag_bytes(false))
    } else {
        before
    }
}

/// The response to a command at `now`.
pub open spec fn response_text(schedule: Schedule, command: Command, now: TimeOfDay) -> Seq<char> {
    match command {
        Command::Status => status_text(schedule, now),
        Command::Stop => stop_text(),
        Command::Reset => reset_text(),
        Command::Test => test_text(),
        Command::Invalid => invalid_text(),
    }
}

/// The actions that a command leads to.
pub open spec fn command_actions(command: Command) -> Seq<Action> {
    match command {
        Command::Reset => seq![Action::SetTriggered(false)],
        Command::Test => bedtime_sequence(),
        _ => Seq::empty(),
    }
}

/// The phase after a command: only `stop` changes it, and only while the
/// daemon runs.
pub open spec fn phase_after(phase: Phase, command: Command) -> Phase {
    if phase == Phase::Running && command == Command::Stop {
        Phase::Stopping
    } else {
        phase
    }
}

impl Outcome {
    /// The stored flag once the outcome has been acted on.
    pub open spec fn flag_after(self, before: bool) -> bool {
        if self.dry_run {
            before
        } else {
            flag_after(self.actions@, before)
        }
    }

    /// The outcome is the one that `command` has at `now`.
    pub open spec fn answers(self, schedule: Schedule, command: Command, now: TimeOfDay) -> bool {
        &&& self.response@ == response_text(schedule, command, now)
        &&& self.stop == (command == Command::Stop)
        &&& self.actions@ == command_actions(command)
        &&& self.dry_run == (command == Command::Test)
    }
}

impl Daemon {
    /// A daemon that has not started, with the warning still to give.
    pub fn new(schedule: Schedule) -> (d: Daemon)
        ensures
            d == (Daemon { schedule, phase: Phase::Starting, warned: false }),
    {
        Daemon { schedule, phase: Phase::Starting, warned: false }
    }

    /// Decides on the probe of the channel's address whether to start. A live
    /// daemon ends this one; anything else leaves it starting.
    pub fn plan_start(&mut self, probe: ChannelProbe) -> (plan: StartPlan)
        ensures
            plan == match probe {
                ChannelProbe::Absent => StartPlan::Bind,
                ChannelProbe::Stale => StartPlan::RemoveStaleThenBind,
                ChannelProbe::Live => StartPlan::Refuse,
            },
            *final(self) == (Daemon {
                phase: if old(self).phase == Phase::Starting && probe == ChannelProbe::Live {
                    Phase::Stopped
                } else {
                    old(self).phase
                },
                ..*old(self)
            }),
    {
        match probe {
            ChannelProbe::Absent => StartPlan::Bind,
            ChannelProbe::Stale => StartPlan::RemoveStaleThenBind,
            ChannelProbe::Live => {
                if self.phase == Phase::Starting {
                    self.phase = Phase::Stopped;
                }
                StartPlan::Refuse
            },
        }
    }

    /// Ends the start: with the store open and the channel bound the daemon
    /// runs, with either missing it is over. Returns whether it runs.
    pub fn finish_start(&mut self, store_open: bool, channel_bound: bool) -> (running: bool)
        ensures
            *final(self) == (Daemon {
                phase: if old(self).phase != Phase::Starting {
                    old(self).phase
                } else if store_open && channel_bound {
                    Phase::Running
                } else {
                    Phase::Stopped
                },
                ..*old(self)
            }),
            running == (final(self).phase == Phase::Running),
    {
        if self.phase == Phase::Starting {
            if store_open && channel_bound {
                self.phase = Phase::Running;
            } else {
                self.phase = Phase::Stopped;
            }
        }
        self.phase == Phase::Running
    }

    /// One tick at `now`, with the record as the store holds it. Entering
    /// the asleep window with the flag down raises it and fires the two
    /// outside actions; being awake with the flag up lowers it; the warning is
    /// given the first time it is due. A daemon that does not run does nothing.
    pub fn tick(&mut self, now: &TimeOfDay, flag: &mut FlagRecord) -> (actions: Vec<Action>)
        ensures
            actions@ == tick_actions(*old(self), *now, old(flag).triggered()),
            *final(self) == tick_state(*old(self), *now),
            final(flag)@ == tick_record(*old(self), *now, old(flag)@),
            final(flag).triggered() == flag_after(actions@, old(flag).triggered()),
            old(self).phase == Phase::Running ==> final(flag).triggered()
                == old(self).schedule.asleep_at(*now),
    {
        if self.phase != Phase::Running {
            return Vec::new();
        }
        let ghost before = flag.triggered();
        let mut actions = if self.schedule.is_asleep(now) {
            on_enter_asleep(flag)
        } else if flag.get_triggered() {
            on_enter_awake(flag)
        } else {
            Vec::new()
        };
        assert(actions@ =~= window_actions(self.schedule, *now, before));
        assert(flag_after(actions@, before) == flag.triggered());
        if self.schedule.should_warn(now) {
            let ghost window_part = actions@;
            let mut warning = on_warning(&mut self.warned);
            actions.append(&mut warning);
            proof {
                if warning_due(old(self).schedule, old(self).warned, *now) {
                    assert(actions@ =~= window_part.push(Action::NotifyWarning));
                    assert(actions@.drop_last() =~= window_part);
                } else {
                    assert(actions@ =~= window_part);
                }
            }
        }
        actions
    }

    /// Answers one line of the control channel at `now`.
    pub fn handle_line(
        &mut self,
        line: &str,
        now: &TimeOfDay,
        flag: &mut FlagRecord,
    ) -> (outcome: Outcome)
        ensures
            outcome.answers(old(self).schedule, command_of(trimmed(line@)), *now),
            *final(self) == (Daemon {
                phase: phase_after(old(self).phase, command_of(trimmed(line@))),
                ..*old(self)
            }),
            final(flag)@ == command_record(command_of(trimmed(line@)), old(flag)@),
            final(flag).triggered() == outcome.flag_after(old(flag).triggered()),
    {
        let command = parse_command(line);
        self.handle_command(command, now, flag)
    }

    /// Answers one command at `now`. `status` reports the window, `stop` ends
    /// a running daemon, `reset` lowers the flag whatever it was, `test`
    /// rehearses the bedtime sequence, says so and changes nothing.
    pub fn handle_command(
        &mut self,
        command: Command,
        now: &TimeOfDay,
        flag: &mut FlagRecord,
    ) -> (outcome: Outcome)
        ensures
            outcome.answers(old(self).schedule, command, *now),
            *final(self) == (Daemon {
                phase: phase_after(old(self).phase, command),
                ..*old(self)
            }),
            final(flag)@ == command_record(command, old(flag)@),
            final(flag).triggered() == outcome.flag_after(old(flag).triggered()),
            command == Command::Reset ==> !final(flag).triggered(),
    {
        match command {
            Command::Status => Outcome {
                response: status_response(&self.schedule, now),
                stop: false,
                actions: Vec::new(),
                dry_run: false,
            },
            Command::Stop => {
                if self.phase == Phase::Running {
                    self.phase = Phase::Stopping;
                }
                Outcome {
                    response: String::from_str("Ending daemon..."),
                    stop: true,
                    actions: Vec::new(),
                    dry_run: false,
                }
            },
            Command::Reset => {
                let actions = on_enter_awake(flag);
                Outcome {
                    response: String::from_str("Reset variables."),
                    stop: false,
                    actions,
                    dry_run: false,
                }
            },
            Command::Test => Outcome {
                response: String::from_str(
                    "Dry run: set triggered, start playback, notify shutdown.",
                ),
                stop: false,
                actions: bedtime_actions(),
                dry_run: true,
            },
            Command::Invalid => Outcome {
                response: String::from_str("Error: Invalid command."),
                stop: false,
                actions: Vec::new(),
                dry_run: false,
            },
        }
    }

    /// Serves what the listener found: a line is answered as a command, and
    /// without a line nothing happens at all.
    pub fn handle_input(
        &mut self,
        inbound: &Inbound,
        now: &TimeOfDay,
        flag: &mut FlagRecord,
    ) -> (outcome: Option<Outcome>)
        ensures
            match inbound_command(*inbound) {
                Some(command) => {
                    &&& outcome is Some
                    &&& outcome->0.answers(old(self).schedule, command, *now)
                    &&& *final(self) == (Daemon {
                        phase: phase_after(old(self).phase, command),
                        ..*old(self)
                    })
                    &&& final(flag)@ == command_record(command, old(flag)@)
                    &&& final(flag).triggered() == outcome->0.flag_after(old(flag).triggered())
                },
                None => {
                    &&& outcome is None
                    &&& *final(self) == *old(self)
                    &&& final(flag)@ == old(flag)@
                },
            },
    {
        match inbound {
            Inbound::Line(line) => Some(self.handle_line(line.as_str(), now, flag)),
            _ => None,
        }
    }

    /// One round of the loop at `now`: the tick, then at most one connection.
    pub fn step(
        &mut self,
        now: &TimeOfDay,
        flag: &mut FlagRecord,
        inbound: &Inbound,
    ) -> (step: Step)
        ensures
            step.actions@ == tick_actions(*old(self), *now, old(flag).triggered()),
            match inbound_command(*inbound) {
                Some(command) => {
                    &&& step.outcome is Some
                    &&& step.outcome->0.answers(old(self).schedule, command, *now)
                    &&& *final(self) == (Daemon {
                        phase: phase_after(old(self).phase, command),
                        ..tick_state(*old(self), *now)
                    })
                    &&& final(flag)@ == command_record(
                        command,
                        tick_record(*old(self), *now, old(flag)@),
                    )
                },
                None => {
                    &&& step.outcome is None
                    &&& *final(self) == tick_state(*old(self), *now)
                    &&& final(flag)@ == tick_record(*old(self), *now, old(flag)@)
                },
            },
    {
        let actions = self.tick(now, flag);
        let outcome = self.handle_input(inbound, now, flag);
        Step { actions, outcome }
    }

    /// Ends a stopping daemon. Returns whether the channel's artifact is to
    /// be removed now: it is, exactly when the daemon was stopping.
    pub fn finish_stop(&mut self) -> (remove_channel: bool)
        ensures
            remove_channel == (old(self).phase == Phase::Stopping),
            *final(self) == (Daemon {
                phase: if old(self).phase == Phase::Stopping {
                    Phase::Stopped
                } else {
                    old(self).phase
                },
                ..*old(self)
            }),
    {
        if self.phase == Phase::Stopping {
            self.phase = Phase::Stopped;
            true
        } else {
            false
        }
    }

    pub fn is_running(&self) -> (r: bool)
        ensures
            r == (self.phase == Phase::Running),
    {
        self.phase == Phase::Running
    }
}

/// The bedtime sequence fires once per asleep window: after a tick inside
/// the window, a further tick inside it, with the flag as the first left it,
/// calls for nothing at all.
pub proof fn lemma_tick_fires_once(d: Daemon, first: TimeOfDay, second: TimeOfDay, before: bool)
    requires
        d.phase == Phase::Running,
        d.schedule.asleep_at(first),
        d.schedule.asleep_at(second),
    ensures
        flag_after(tick_actions(d, first, before), before),
        tick_actions(tick_state(d, first), second, flag_after(tick_actions(d, first, before), before))
            == Seq::<Action>::empty(),
{
    lemma_bedtime_sequence_raises_flag(before);
    assert(tick_actions(d, first, before) == window_actions(d.schedule, first, before));
}

/// While the flag is up inside the asleep window a tick fires nothing,
/// however it came to be up.
pub proof fn lemma_raised_flag_holds_fire(d: Daemon, now: TimeOfDay)
    requires
        d.schedule.asleep_at(now),
    ensures
        tick_actions(d, now, true) == Seq::<Action>::empty(),
        !has_outside_effect(tick_actions(d, now, true)),
{
}

/// A tick of a running daemon leaves the flag up inside the asleep window
/// and down outside, whatever it was before.
pub proof fn lemma_tick_settles_flag(d: Daemon, now: TimeOfDay, before: bool)
    requires
        d.phase == Phase::Running,
    ensures
        flag_after(tick_actions(d, now, before), before) == d.schedule.asleep_at(now),
{
    lemma_bedtime_sequence_raises_flag(before);
    let w = window_actions(d.schedule, now, before);
    if !d.schedule.asleep_at(now) && before {
        assert(w.last() == Action::SetTriggered(false));
    }
    assert(flag_after(w, before) == d.schedule.asleep_at(now));
    if warning_due(d.schedule, d.warned, now) {
        let all = w.push(Action::NotifyWarning);
        assert(all.last() == Action::NotifyWarning);
        assert(all.drop_last() =~= w);
        assert(flag_after(all, before) == flag_after(w, before));
    }
}

/// The warning is given at most once in a run: once a tick has given it, no
/// later tick does, at whatever time and with whatever flag.
pub proof fn lemma_warning_once(
    d: Daemon,
    first: TimeOfDay,
    before: bool,
    later: TimeOfDay,
    flag: bool,
)
    requires
        tick_actions(d, first, before).contains(Action::NotifyWarning),
    ensures
        tick_state(d, first).warned,
        !tick_actions(tick_state(d, first), later, flag).contains(Action::NotifyWarning),
{
    let w = window_actions(d.schedule, first, before);
    assert(!w.contains(Action::NotifyWarning)) by {
        if w.contains(Action::NotifyWarning) {
            let i = choose|i: int| 0 <= i < w.len() && w[i] == Action::NotifyWarning;
            assert(w[i] == Action::NotifyWarning);
        }
    }
    assert(!Seq::<Action>::empty().contains(Action::NotifyWarning));
    let next = tick_state(d, first);
    let v = window_actions(next.schedule, later, flag);
    assert(!v.contains(Action::NotifyWarning)) by {
        if v.contains(Action::NotifyWarning) {
            let i = choose|i: int| 0 <= i < v.len() && v[i] == Action::NotifyWarning;
            assert(v[i] == Action::NotifyWarning);
        }
    }
}

/// A daemon that does not run stays that way: its ticks call for nothing and
/// leave it as it is, and no command brings it back to running.
pub proof fn lemma_stopping_is_final(d: Daemon, now: TimeOfDay, triggered: bool, command: Command)
    requires
        d.phase != Phase::Running,
    ensures
        tick_actions(d, now, triggered) == Seq::<Action>::empty(),
        tick_state(d, now) == d,
        phase_after(d.phase, command) == d.phase,
        phase_after(Phase::Running, Command::Stop) == Phase::Stopping,
{
}

/// Every command is answered with text, so a peer can tell an answer from a
/// connection that was dropped, and only a line that is no command gets the
/// error text.
pub proof fn lemma_every_reply_has_text(schedule: Schedule, command: Command, now: TimeOfDay)
    ensures
        response_text(schedule, command, now).len() > 0,
        response_text(schedule, command, now) == invalid_text() ==> command == Command::Invalid,
{
    reveal_strlit("\nStatus: ASLEEP\nTime for bed.");
    reveal_strlit("\nStatus: AWAKE\nTime Left: ");
    reveal_strlit("Ending daemon...");
    reveal_strlit("Reset variables.");
    reveal_strlit("Dry run: set triggered, start playback, notify shutdown.");
    reveal_strlit("Error: Invalid command.");
    let reply = response_text(schedule, command, now);
    if command == Command::Status && !schedule.asleep_at(now) {
        assert(reply[0] == "\nStatus: AWAKE\nTime Left: "@[0]);
    }
    if command == Command::Stop {
        assert(reply[1] != invalid_text()[1]);
    } else if command != Command::Invalid {
        assert(reply[0] != invalid_text()[0]);
    }
}

/// `reset` leaves the flag down, whatever the store held before, and a line
/// that is no command leaves the store and the phase as they were.
pub proof fn lemma_reset_lowers_flag(before: Option<Seq<u8>>, phase: Phase)
    ensures
        !flag_of(command_record(Command::Reset, before)),
        !flag_after(command_actions(Command::Reset), flag_of(before)),
        command_record(Command::Invalid, before) == before,
        phase_after(phase, Command::Invalid) == phase,
        command_actions(Command::Invalid) == Seq::<Action>::empty(),
{
    lemma_flag_round_trip(false);
    assert(command_actions(Command::Reset).last() == Action::SetTriggered(false));
}

} // verus!
