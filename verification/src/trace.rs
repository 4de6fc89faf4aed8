//! Whole runs of the supervisor: what a sequence of events leads to, and
//! what holds of every such sequence.

use vstd::prelude::*;
use crate::dns::DnsTarget;
use crate::supervisor::{
    actions_of, actions_view, line_actions, next_phase, Action, ActionView, Event, EventView,
    Outcome, Phase, Supervisor,
};
use crate::trigger::announces_tunnel;

verus! {

/// The views of a sequence of events, in order.
pub open spec fn events_view(events: Seq<Event>) -> Seq<EventView> {
    events.map_values(|e: Event| e@)
}

/// The phase reached from `phase` after `events`, taken in order.
pub open spec fn run_phase(phase: Phase, events: Seq<EventView>) -> Phase
    decreases events.len(),
{
    if events.len() == 0 {
        phase
    } else {
        run_phase(next_phase(phase, events[0]), events.drop_first())
    }
}

/// All actions asked for from `phase` on through `events`, in order.
pub open spec fn run_actions(phase: Phase, events: Seq<EventView>) -> Seq<ActionView>
    decreases events.len(),
{
    if events.len() == 0 {
        Seq::<ActionView>::empty()
    } else {
        actions_of(phase, events[0]) + run_actions(
            next_phase(phase, events[0]),
            events.drop_first(),
        )
    }
}

/// How often `action` stands in `actions`.
pub open spec fn occurrences(actions: Seq<ActionView>, action: ActionView) -> nat
    decreases actions.len(),
{
    if actions.len() == 0 {
        0
    } else {
        (if actions[0] == action {
            1nat
        } else {
            0nat
        }) + occurrences(actions.drop_first(), action)
    }
}

/// How many of `events` are lines that announce the tunnel and arrive while
/// the engine runs, starting from `phase`.
pub open spec fn announcements(phase: Phase, events: Seq<EventView>) -> nat
    decreases events.len(),
{
    if events.len() == 0 {
        0
    } else {
        (if phase == Phase::Running && (events[0] matches EventView::Line(line)
            && announces_tunnel(line)) {
            1nat
        } else {
            0nat
        }) + announcements(next_phase(phase, events[0]), events.drop_first())
    }
}

/// The DNS override has been withdrawn, or is being withdrawn.
pub open spec fn withdrawn(phase: Phase) -> bool {
    phase is Terminating || phase is Stopped
}

/// The request to activate the DNS override.
pub open spec fn activate() -> ActionView {
    ActionView::SetDns(DnsTarget::Activate)
}

/// The request to withdraw the DNS override.
pub open spec fn restore() -> ActionView {
    ActionView::SetDns(DnsTarget::Restore)
}

/// Occurrences add up over concatenation.
pub proof fn lemma_occurrences_concat(a: Seq<ActionView>, b: Seq<ActionView>, action: ActionView)
    ensures
        occurrences(a + b, action) == occurrences(a, action) + occurrences(b, action),
    decreases a.len(),
{
    if a.len() == 0 {
        assert(a + b =~= b);
    } else {
        assert((a + b).drop_first() =~= a.drop_first() + b);
        lemma_occurrences_concat(a.drop_first(), b, action);
    }
}

/// A run over `first + rest` is the run over `first` followed by the run
/// over `rest` from the phase that `first` leads to.
pub proof fn lemma_run_split(phase: Phase, first: Seq<EventView>, rest: Seq<EventView>)
    ensures
        run_phase(phase, first + rest) == run_phase(run_phase(phase, first), rest),
        run_actions(phase, first + rest) == run_actions(phase, first) + run_actions(
            run_phase(phase, first),
            rest,
        ),
    decreases first.len(),
{
    if first.len() == 0 {
        assert(first + rest =~= rest);
        assert(run_actions(phase, first) + run_actions(phase, rest) =~= run_actions(phase, rest));
    } else {
        let next = next_phase(phase, first[0]);
        assert((first + rest).drop_first() =~= first.drop_first() + rest);
        assert((first + rest)[0] == first[0]);
        lemma_run_split(next, first.drop_first(), rest);
        assert(run_actions(phase, first + rest) =~= run_actions(phase, first) + run_actions(
            run_phase(phase, first),
            rest,
        ));
    }
}

/// One line asks for activation once if it announces the tunnel and not at
/// all otherwise, and never asks for the override to be withdrawn.
pub proof fn lemma_line_actions(line: Seq<char>)
    ensures
        occurrences(line_actions(line), activate()) == (if announces_tunnel(line) {
            1nat
        } else {
            0nat
        }),
        occurrences(line_actions(line), restore()) == 0,
        forall|action: ActionView|
            action is Exit ==> (#[trigger] occurrences(line_actions(line), action)) == 0,
{
    let a = line_actions(line);
    assert forall|action: ActionView|
        action == activate() || action == restore() || action is Exit implies (#[trigger] occurrences(
        a,
        action,
    )) == (if announces_tunnel(line) && action == activate() {
        1nat
    } else {
        0nat
    }) by {
        let a1 = a.drop_first();
        let a2 = a1.drop_first();
        let a3 = a2.drop_first();
        reveal_with_fuel(occurrences, 5);
        if a.len() > 0 {
            if a1.len() > 0 {
                if a2.len() > 0 {
                    assert(a3.len() == 0);
                }
            }
        }
    }
}

/// What one step asks for, counted: activation once for an announcing line
/// in the running phase and never else; withdrawal once on the step that
/// ends the run and never else; exit once on the step that stops.
pub proof fn lemma_step_counts(phase: Phase, event: EventView, outcome: Outcome)
    ensures
        occurrences(actions_of(phase, event), activate()) == (if phase == Phase::Running && (
        event matches EventView::Line(line) && announces_tunnel(line)) {
            1nat
        } else {
            0nat
        }),
        occurrences(actions_of(phase, event), restore()) == (if !withdrawn(phase) && withdrawn(
            next_phase(phase, event),
        ) {
            1nat
        } else {
            0nat
        }),
        occurrences(actions_of(phase, event), ActionView::Exit(outcome)) == (if phase
            == Phase::Terminating(outcome) && next_phase(phase, event) == Phase::Stopped(outcome) {
            1nat
        } else {
            0nat
        }),
{
    let a = actions_of(phase, event);
    reveal_with_fuel(occurrences, 3);
    match (phase, event) {
        (Phase::Running, EventView::Line(line)) => {
            lemma_line_actions(line);
        },
        (Phase::Starting, EventView::StartFailed) => {
            assert(a.drop_first().len() == 0);
        },
        (Phase::Running, EventView::OutputClosed) => {
            assert(a.drop_first().len() == 0);
        },
        (Phase::Terminating(o), EventView::Restored) => {
            assert(a.drop_first().len() == 0);
        },
        _ => {
            assert(a.len() == 0);
        },
    }
}

/// Counts over a run from any phase: activations are the announcements
/// seen; the override is withdrawn once if the run ends the engine's life
/// and never again afterwards; the process is told to exit once, on the step
/// that stops it. A run that is over stays over.
pub proof fn lemma_run_counts(phase: Phase, events: Seq<EventView>, outcome: Outcome)
    ensures
        occurrences(run_actions(phase, events), activate()) == announcements(phase, events),
        occurrences(run_actions(phase, events), restore()) == (if !withdrawn(phase) && withdrawn(
            run_phase(phase, events),
        ) {
            1nat
        } else {
            0nat
        }),
        occurrences(run_actions(phase, events), ActionView::Exit(outcome)) == (if !(phase
            is Stopped) && run_phase(phase, events) == Phase::Stopped(outcome) {
            1nat
        } else {
            0nat
        }),
        withdrawn(phase) ==> withdrawn(run_phase(phase, events)),
        phase is Stopped ==> run_phase(phase, events) == phase,
        phase matches Phase::Terminating(o) ==> run_phase(phase, events) == phase || run_phase(
            phase,
            events,
        ) == Phase::Stopped(o),
    decreases events.len(),
{
    if events.len() == 0 {
    } else {
        let next = next_phase(phase, events[0]);
        let head = actions_of(phase, events[0]);
        let tail = run_actions(next, events.drop_first());
        lemma_step_counts(phase, events[0], outcome);
        lemma_run_counts(next, events.drop_first(), outcome);
        lemma_occurrences_concat(head, tail, activate());
        lemma_occurrences_concat(head, tail, restore());
        lemma_occurrences_concat(head, tail, ActionView::Exit(outcome));
    }
}

/// Whatever events arrive, in whatever order, the override is asked to be
/// withdrawn exactly once by the time the run is over, and not before; and a
/// run that has stopped has asked for exit exactly once, with the outcome it
/// stopped with.
pub proof fn lemma_restore_exactly_once(events: Seq<EventView>)
    ensures
        occurrences(run_actions(Phase::Starting, events), restore()) == (if withdrawn(
            run_phase(Phase::Starting, events),
        ) {
            1nat
        } else {
            0nat
        }),
        run_phase(Phase::Starting, events) matches Phase::Stopped(outcome) ==> {
            &&& occurrences(run_actions(Phase::Starting, events), restore()) == 1
            &&& occurrences(run_actions(Phase::Starting, events), ActionView::Exit(outcome)) == 1
        },
{
    lemma_run_counts(Phase::Starting, events, Outcome::Completed);
    lemma_run_counts(Phase::Starting, events, Outcome::StartupFailed);
}

/// At no point of a run has an exit been asked for without the withdrawal
/// having been asked for before it: a run that has not stopped has asked for
/// no exit, and one that has not begun to end has asked for no withdrawal.
pub proof fn lemma_restore_precedes_exit(events: Seq<EventView>, outcome: Outcome)
    ensures
        occurrences(run_actions(Phase::Starting, events), ActionView::Exit(outcome))
            <= occurrences(run_actions(Phase::Starting, events), restore()),
        !(run_phase(Phase::Starting, events) is Stopped) ==> occurrences(
            run_actions(Phase::Starting, events),
            ActionView::Exit(outcome),
        ) == 0,
        !withdrawn(run_phase(Phase::Starting, events)) ==> occurrences(
            run_actions(Phase::Starting, events),
            restore(),
        ) == 0,
{
    lemma_run_counts(Phase::Starting, events, outcome);
}

/// The override is asked to be activated exactly once for each line that
/// announces the tunnel while the engine runs, and for nothing else.
pub proof fn lemma_activation_per_announcement(events: Seq<EventView>)
    ensures
        occurrences(run_actions(Phase::Starting, events), activate()) == announcements(
            Phase::Starting,
            events,
        ),
{
    lemma_run_counts(Phase::Starting, events, Outcome::Completed);
}

/// Once the override is being withdrawn, no later event activates it or
/// withdraws it again; once the run has stopped, no later event asks for
/// anything. So the withdrawal comes after every activation and before the
/// exit.
pub proof fn lemma_quiet_after_withdrawal(first: Seq<EventView>, rest: Seq<EventView>)
    requires
        withdrawn(run_phase(Phase::Starting, first)),
    ensures
        run_actions(Phase::Starting, first + rest) == run_actions(Phase::Starting, first)
            + run_actions(run_phase(Phase::Starting, first), rest),
        occurrences(run_actions(run_phase(Phase::Starting, first), rest), activate()) == 0,
        occurrences(run_actions(run_phase(Phase::Starting, first), rest), restore()) == 0,
        run_phase(Phase::Starting, first) is Stopped ==> run_actions(
            run_phase(Phase::Starting, first),
            rest,
        ) == Seq::<ActionView>::empty(),
{
    let mid = run_phase(Phase::Starting, first);
    lemma_run_split(Phase::Starting, first, rest);
    lemma_run_counts(mid, rest, Outcome::Completed);
    lemma_no_announcement_after_withdrawal(mid, rest);
    if mid is Stopped {
        lemma_stopped_is_silent(mid, rest);
    }
}

/// A run that is over sees no announcement.
pub proof fn lemma_no_announcement_after_withdrawal(phase: Phase, events: Seq<EventView>)
    requires
        withdrawn(phase),
    ensures
        announcements(phase, events) == 0,
    decreases events.len(),
{
    if events.len() > 0 {
        lemma_no_announcement_after_withdrawal(next_phase(phase, events[0]), events.drop_first());
    }
}

/// A stopped run asks for nothing.
pub proof fn lemma_stopped_is_silent(phase: Phase, events: Seq<EventView>)
    requires
        phase is Stopped,
    ensures
        run_actions(phase, events) == Seq::<ActionView>::empty(),
        run_phase(phase, events) == phase,
    decreases events.len(),
{
    if events.len() > 0 {
        lemma_stopped_is_silent(next_phase(phase, events[0]), events.drop_first());
        assert(run_actions(phase, events) =~= Seq::<ActionView>::empty());
    }
}

impl Supervisor {
    /// Takes `events` one after the other and returns all actions asked
    /// for, in order.
    pub fn replay(&mut self, events: &Vec<Event>) -> (actions: Vec<Action>)
        ensures
            final(self)@ == run_phase(old(self)@, events_view(events@)),
            actions_view(actions@) == run_actions(old(self)@, events_view(events@)),
    {
        let ghost all = events_view(events@);
        let mut actions: Vec<Action> = Vec::new();
        let mut i: usize = 0;
        proof {
            assert(all.take(0) =~= Seq::<EventView>::empty());
            assert(actions_view(actions@) =~= Seq::<ActionView>::empty());
        }
        while i < events.len()
            invariant
                i <= events.len(),
                all == events_view(events@),
                self@ == run_phase(old(self)@, all.take(i as int)),
                actions_view(actions@) == run_actions(old(self)@, all.take(i as int)),
            decreases events.len() - i,
        {
            let ghost before = self@;
            let ghost done = actions_view(actions@);
            let mut step = self.handle(&events[i]);
            let ghost asked = actions_view(step@);
            actions.append(&mut step);
            proof {
                let one = seq![all[i as int]];
                assert(all.take(i + 1) =~= all.take(i as int) + one);
                lemma_run_split(old(self)@, all.take(i as int), one);
                assert(one.drop_first() =~= Seq::<EventView>::empty());
                reveal_with_fuel(run_phase, 2);
                reveal_with_fuel(run_actions, 2);
                assert(run_phase(before, one) == next_phase(before, one[0]));
                assert(run_actions(before, one) =~= actions_of(before, one[0]));
                assert(actions_view(actions@) =~= done + asked);
            }
            i += 1;
        }
        proof {
            assert(all.take(i as int) =~= all);
        }
        actions
    }
}

} // verus!
