//! The one-shot actions at the edges of the asleep window, and the flag that
//! keeps them from firing twice.

use crate::flag::{flag_bytes, FlagRecord};
use vstd::prelude::*;

verus! {

/// One thing for the runner to do.
#[derive(Clone, Copy, Debug, PartialEq, Eq, Structural)]
pub enum Action {
    /// Store the flag and make the write durable before anything else is done.
    SetTriggered(bool),
    /// Start playback on the music device.
    StartPlayback,
    /// Tell the remote host to shut down.
    NotifyShutdown,
    /// Tell the remote host that bed time is near.
    NotifyWarning,
}

/// What entering the asleep window calls for: the flag first, so that a
/// crash in between skips the rest instead of repeating it.
pub open spec fn bedtime_sequence() -> Seq<Action> {
    seq![Action::SetTriggered(true), Action::StartPlayback, Action::NotifyShutdown]
}

/// The stored flag once `actions` have been carried out in their order: the
/// last write wins, and without a write the flag stays.
pub open spec fn flag_after(actions: Seq<Action>, before: bool) -> bool
    decreases actions.len(),
{
    if actions.len() == 0 {
        before
    } else {
        match actions.last() {
            Action::SetTriggered(v) => v,
            _ => flag_after(actions.drop_last(), before),
        }
    }
}

/// `actions` reach outside the daemon and its store.
pub open spec fn has_outside_effect(actions: Seq<Action>) -> bool {
    exists|i: int| 0 <= i < actions.len() && !(#[trigger] actions[i] is SetTriggered)
}

/// The bedtime sequence, as a vector.
pub fn bedtime_actions() -> (actions: Vec<Action>)
    ensures
        actions@ == bedtime_sequence(),
{
    let mut actions: Vec<Action> = Vec::new();
    actions.push(Action::SetTriggered(true));
    actions.push(Action::StartPlayback);
    actions.push(Action::NotifyShutdown);
    assert(actions@ =~= bedtime_sequence());
    actions
}

/// Entering the asleep window. With the flag down it is raised and the
/// bedtime sequence is due; with the flag up nothing happens, however often
/// this is called.
pub fn on_enter_asleep(flag: &mut FlagRecord) -> (actions: Vec<Action>)
    ensures
        final(flag).triggered(),
        old(flag).triggered() ==> final(flag)@ == old(flag)@ && actions@ == Seq::<Action>::empty(),
        !old(flag).triggered() ==> final(flag)@ == Some(flag_bytes(true)) && actions@
            == bedtime_sequence(),
        flag_after(actions@, old(flag).triggered()) == final(flag).triggered(),
{
    if flag.get_triggered() {
        Vec::new()
    } else {
        flag.set_triggered(true);
        let actions = bedtime_actions();
        proof {
            lemma_bedtime_sequence_raises_flag(false);
        }
        actions
    }
}

/// Entering the awake window: the flag goes down, whatever it was.
pub fn on_enter_awake(flag: &mut FlagRecord) -> (actions: Vec<Action>)
    ensures
        !final(flag).triggered(),
        final(flag)@ == Some(flag_bytes(false)),
        actions@ == seq![Action::SetTriggered(false)],
        flag_after(actions@, old(flag).triggered()) == final(flag).triggered(),
{
    flag.set_triggered(false);
    let mut actions: Vec<Action> = Vec::new();
    actions.push(Action::SetTriggered(false));
    assert(actions@ =~= seq![Action::SetTriggered(false)]);
    actions
}

/// The warning before bed. It is due once: the first call gives it and marks
/// it given, every later call does nothing. The stored flag is not involved.
pub fn on_warning(warned: &mut bool) -> (actions: Vec<Action>)
    ensures
        *final(warned),
        actions@ == if *old(warned) {
            Seq::<Action>::empty()
        } else {
            seq![Action::NotifyWarning]
        },
{
    let mut actions: Vec<Action> = Vec::new();
    if !*warned {
        actions.push(Action::NotifyWarning);
        *warned = true;
    }
    assert(actions@ =~= if *old(warned) {
        Seq::<Action>::empty()
    } else {
        seq![Action::NotifyWarning]
    });
    actions
}

/// The bedtime sequence leaves the flag up, whatever it was before.
pub proof fn lemma_bedtime_sequence_raises_flag(before: bool)
    ensures
        flag_after(bedtime_sequence(), before),
        has_outside_effect(bedtime_sequence()),
{
    let s = bedtime_sequence();
    assert(s.drop_last() =~= seq![Action::SetTriggered(true), Action::StartPlayback]);
    assert(s.drop_last().drop_last() =~= seq![Action::SetTriggered(true)]);
    assert(flag_after(s.drop_last().drop_last(), before));
    assert(flag_after(s.drop_last(), before));
    assert(!(s[1] is SetTriggered));
}

/// Entering the asleep window again while the flag is up fires nothing: what
/// `on_enter_asleep` hands out for a raised flag has no action in it, so
/// after the first call every further one is without effect.
pub proof fn lemma_second_entry_fires_nothing(first: Seq<Action>, before: bool, again: Seq<Action>)
    requires
        first == if before {
            Seq::<Action>::empty()
        } else {
            bedtime_sequence()
        },
        again == if flag_after(first, before) {
            Seq::<Action>::empty()
        } else {
            bedtime_sequence()
        },
    ensures
        again.len() == 0,
        !has_outside_effect(again),
        flag_after(again, flag_after(first, before)) == flag_after(first, before),
{
    lemma_bedtime_sequence_raises_flag(before);
}

} // verus!
