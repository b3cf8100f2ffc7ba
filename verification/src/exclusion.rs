//! What holds of the flags when any number of commands run side by side.
//!
//! The commands share the flags and take their steps in any order. The
//! flags and the commands stay coherent throughout: a stack is marked busy
//! exactly as long as one command holds the claim on it, and never more
//! than one does.

use vstd::prelude::*;
use crate::action_state::{
    spec_release, state_of, ActionGuardView, BusyView, RegistryView, StackActionState,
};
use crate::command::CommandErrorView;
use crate::execution::{held, spec_abandon, spec_step, ExecutionView, PhaseView};
use crate::pipeline::Open;
use crate::protocol::{ActionView, ReplyView};

verus! {

/// The flags of every resource, and the commands under way.
pub struct System {
    pub states: RegistryView,
    pub runs: Seq<ExecutionView>,
}

/// One command takes a step.
pub struct Event {
    /// Which command steps.
    pub run: int,
    pub reply: ReplyView,
    pub now: i64,
    pub open: Open,
}

/// Command `i` holds the claim on `id`.
pub open spec fn holds(sys: System, i: int, id: Seq<char>) -> bool {
    &&& 0 <= i < sys.runs.len()
    &&& held(sys.runs[i]) matches Some(guard)
    &&& guard.id == id
}

/// The flags and the commands agree:
/// the stack of every claim is marked with the flag of that claim, no two
/// commands hold a claim on the same stack, and every stack that is marked
/// busy is held by some command.
pub open spec fn coherent(sys: System) -> bool {
    &&& forall|i: int|
        0 <= i < sys.runs.len() && (#[trigger] held(sys.runs[i])) is Some ==> state_of(
            sys.states,
            held(sys.runs[i])->0.id,
        ) == StackActionState::claimed(held(sys.runs[i])->0.flag)
    &&& forall|i: int, j: int, id: Seq<char>|
        #[trigger] holds(sys, i, id) && #[trigger] holds(sys, j, id) ==> i == j
    &&& forall|id: Seq<char>|
        (#[trigger] state_of(sys.states, id)).spec_busy() ==> exists|i: int| holds(sys, i, id)
}

/// The system after the step of `event`.
pub open spec fn system_step(sys: System, event: Event) -> System {
    let stepped = spec_step(sys.runs[event.run], sys.states, event.reply, event.now, event.open);
    System { states: stepped.states, runs: sys.runs.update(event.run, stepped.execution) }
}

/// The system after the steps of `events`, in their order.
pub open spec fn system_after(sys: System, events: Seq<Event>) -> System
    decreases events.len(),
{
    if events.len() == 0 {
        sys
    } else {
        system_step(system_after(sys, events.drop_last()), events.last())
    }
}

/// What a step does to the flags goes by the claim alone: a command that
/// gains the claim found its stack idle and marks it; one that keeps the
/// claim, or has none before and after, leaves all flags as they were; one
/// that gives the claim up resets the flags of its stack, and has ended.
pub proof fn lemma_steps_follow_the_claim(
    e: ExecutionView,
    states: RegistryView,
    reply: ReplyView,
    now: i64,
    open: Open,
)
    ensures
        ({
            let stepped = spec_step(e, states, reply, now, open);
            match held(e) {
                None => match held(stepped.execution) {
                    None => stepped.states == states,
                    Some(guard) => {
                        &&& !state_of(states, guard.id).spec_busy()
                        &&& guard.flag == e.command.kind.spec_flag()
                        &&& stepped.states == states.insert(
                            guard.id,
                            StackActionState::claimed(guard.flag),
                        )
                    },
                },
                Some(guard) => match held(stepped.execution) {
                    None => {
                        &&& stepped.states == spec_release(states, guard.id)
                        &&& stepped.execution.phase is Finished
                    },
                    Some(kept) => kept == guard && stepped.states == states,
                },
            }
        }),
        spec_step(e, states, reply, now, open).execution.phase is Finished ==> held(
            spec_step(e, states, reply, now, open).execution,
        ) is None,
{
}

/// A step of any command keeps the system coherent.
pub proof fn lemma_step_keeps_coherence(sys: System, event: Event)
    requires
        coherent(sys),
        0 <= event.run < sys.runs.len(),
    ensures
        coherent(system_step(sys, event)),
{
    let e = sys.runs[event.run];
    let stepped = spec_step(e, sys.states, event.reply, event.now, event.open);
    let next = system_step(sys, event);
    lemma_steps_follow_the_claim(e, sys.states, event.reply, event.now, event.open);
    assert forall|i: int| 0 <= i < next.runs.len() && (#[trigger] held(next.runs[i])) is Some implies state_of(
        next.states,
        held(next.runs[i])->0.id,
    ) == StackActionState::claimed(held(next.runs[i])->0.flag) by {
        if i != event.run {
            assert(next.runs[i] == sys.runs[i]);
            let id = held(sys.runs[i])->0.id;
            assert(holds(sys, i, id));
            if held(e) is Some {
                assert(holds(sys, event.run, held(e)->0.id));
            } else if held(stepped.execution) is Some {
                let gained = held(stepped.execution)->0.id;
                assert(state_of(sys.states, id).spec_busy());
            }
        }
    }
    assert forall|i: int, j: int, id: Seq<char>| #[trigger]
        holds(next, i, id) && #[trigger] holds(next, j, id) implies i == j by {
        if i != j {
            if i != event.run && j != event.run {
                assert(holds(sys, i, id) && holds(sys, j, id));
            } else {
                let other = if i == event.run { j } else { i };
                assert(next.runs[other] == sys.runs[other]);
                assert(holds(sys, other, id));
                if held(e) is Some {
                    assert(holds(sys, event.run, id));
                } else {
                    assert(held(sys.runs[other]) is Some);
                    assert(state_of(sys.states, id).spec_busy());
                }
            }
        }
    }
    assert forall|id: Seq<char>| (#[trigger] state_of(next.states, id)).spec_busy() implies exists|
        i: int,
    | holds(next, i, id) by {
        if held(stepped.execution) is Some && held(stepped.execution)->0.id == id {
            assert(holds(next, event.run, id));
        } else {
            assert(state_of(sys.states, id).spec_busy());
            let i = choose|i: int| holds(sys, i, id);
            if i == event.run {
                assert(held(e)->0.id == id);
            } else {
                assert(next.runs[i] == sys.runs[i]);
                assert(holds(next, i, id));
            }
        }
    }
}

/// The system after command `i` was given up: the claim that it held is
/// given back, and the command counts as ended.
pub open spec fn system_abandon(sys: System, i: int) -> System {
    System {
        states: spec_abandon(sys.runs[i], sys.states),
        runs: sys.runs.update(i, ExecutionView { phase: PhaseView::Finished, ..sys.runs[i] }),
    }
}

/// Giving a command up keeps the system coherent.
pub proof fn lemma_abandon_keeps_coherence(sys: System, i: int)
    requires
        coherent(sys),
        0 <= i < sys.runs.len(),
    ensures
        coherent(system_abandon(sys, i)),
{
    let next = system_abandon(sys, i);
    assert forall|k: int| 0 <= k < next.runs.len() && (#[trigger] held(next.runs[k])) is Some implies state_of(
        next.states,
        held(next.runs[k])->0.id,
    ) == StackActionState::claimed(held(next.runs[k])->0.flag) by {
        assert(next.runs[k] == sys.runs[k]);
        let id = held(sys.runs[k])->0.id;
        assert(holds(sys, k, id));
        if held(sys.runs[i]) is Some {
            assert(holds(sys, i, held(sys.runs[i])->0.id));
        }
    }
    assert forall|a: int, b: int, id: Seq<char>| #[trigger]
        holds(next, a, id) && #[trigger] holds(next, b, id) implies a == b by {
        assert(next.runs[a] == sys.runs[a]);
        assert(next.runs[b] == sys.runs[b]);
        assert(holds(sys, a, id) && holds(sys, b, id));
    }
    assert forall|id: Seq<char>| (#[trigger] state_of(next.states, id)).spec_busy() implies exists|
        k: int,
    | holds(next, k, id) by {
        assert(state_of(sys.states, id).spec_busy());
        let k = choose|k: int| holds(sys, k, id);
        assert(next.runs[k] == sys.runs[k]);
        assert(holds(next, k, id));
    }
}

/// However the commands take their steps, the system stays coherent.
pub proof fn lemma_coherence_is_invariant(sys: System, events: Seq<Event>)
    requires
        coherent(sys),
        forall|k: int| 0 <= k < events.len() ==> 0 <= (#[trigger] events[k]).run < sys.runs.len(),
    ensures
        coherent(system_after(sys, events)),
        system_after(sys, events).runs.len() == sys.runs.len(),
    decreases events.len(),
{
    if events.len() > 0 {
        lemma_coherence_is_invariant(sys, events.drop_last());
        lemma_step_keeps_coherence(system_after(sys, events.drop_last()), events.last());
    }
}

/// Commands that start with no flag set, and take their steps in any order,
/// leave no flag set once all of them have ended.
pub proof fn lemma_ended_commands_leave_all_idle(runs: Seq<ExecutionView>, events: Seq<Event>)
    requires
        forall|i: int| 0 <= i < runs.len() ==> (#[trigger] runs[i]).phase is Lookup,
        forall|k: int| 0 <= k < events.len() ==> 0 <= (#[trigger] events[k]).run < runs.len(),
    ensures
        ({
            let end = system_after(System { states: Map::empty(), runs }, events);
            (forall|i: int| 0 <= i < end.runs.len() ==> (#[trigger] end.runs[i]).phase is Finished)
                ==> forall|id: Seq<char>|
                (#[trigger] state_of(end.states, id)) == StackActionState::idle()
        }),
{
    let start = System { states: Map::empty(), runs };
    lemma_fresh_system_is_coherent(runs);
    lemma_coherence_is_invariant(start, events);
    let end = system_after(start, events);
    if forall|i: int| 0 <= i < end.runs.len() ==> (#[trigger] end.runs[i]).phase is Finished {
        assert forall|id: Seq<char>| (#[trigger] state_of(end.states, id))
            == StackActionState::idle() by {
            lemma_no_flag_without_claim(end, id);
        }
    }
}

/// With no flag set and no command holding a claim, the system is coherent.
pub proof fn lemma_fresh_system_is_coherent(runs: Seq<ExecutionView>)
    requires
        forall|i: int| 0 <= i < runs.len() ==> (#[trigger] runs[i]).phase is Lookup,
    ensures
        coherent(System { states: Map::empty(), runs }),
{
}

/// A further command that holds no claim keeps the system coherent.
pub proof fn lemma_new_command_keeps_coherence(sys: System, e: ExecutionView)
    requires
        coherent(sys),
        held(e) is None,
    ensures
        coherent(System { states: sys.states, runs: sys.runs.push(e) }),
{
    let next = System { states: sys.states, runs: sys.runs.push(e) };
    assert forall|i: int| 0 <= i < next.runs.len() && (#[trigger] held(next.runs[i])) is Some implies state_of(
        next.states,
        held(next.runs[i])->0.id,
    ) == StackActionState::claimed(held(next.runs[i])->0.flag) by {
        assert(next.runs[i] == sys.runs[i]);
    }
    assert forall|i: int, j: int, id: Seq<char>| #[trigger]
        holds(next, i, id) && #[trigger] holds(next, j, id) implies i == j by {
        assert(next.runs[i] == sys.runs[i]);
        assert(next.runs[j] == sys.runs[j]);
        assert(holds(sys, i, id) && holds(sys, j, id));
    }
    assert forall|id: Seq<char>| (#[trigger] state_of(next.states, id)).spec_busy() implies exists|
        i: int,
    | holds(next, i, id) by {
        let i = choose|i: int| holds(sys, i, id);
        assert(next.runs[i] == sys.runs[i]);
        assert(holds(next, i, id));
    }
}

/// Command `e` is at the point of claiming the stack `id`: the answer
/// `reply` is the last that it needs before it claims.
pub open spec fn about_to_claim(e: ExecutionView, reply: ReplyView, id: Seq<char>) -> bool {
    match e.phase {
        PhaseView::Lookup => reply matches ReplyView::Stack(stack, _) && stack.id == id && (
        stack.config.files_on_host || stack.config.linked_repo.len() == 0),
        PhaseView::LookupRepo { stack, .. } => reply is Repo && stack.id == id,
        _ => false,
    }
}

/// Mutual exclusion: while one command holds the claim on a stack, any
/// other command that comes to claim that stack ends at once as busy,
/// naming the operation in flight, and leaves the flags as they were.
pub proof fn lemma_second_claim_is_refused(sys: System, holder: int, event: Event)
    requires
        coherent(sys),
        0 <= event.run < sys.runs.len(),
        0 <= holder < sys.runs.len(),
        held(sys.runs[holder]) is Some,
        about_to_claim(sys.runs[event.run], event.reply, held(sys.runs[holder])->0.id),
    ensures
        system_step(sys, event).states == sys.states,
        system_step(sys, event).runs[event.run].phase is Finished,
        spec_step(
            sys.runs[event.run],
            sys.states,
            event.reply,
            event.now,
            event.open,
        ).action == ActionView::Finish(
            Err(
                CommandErrorView::Busy(
                    BusyView {
                        resource: held(sys.runs[holder])->0.id,
                        operation: held(sys.runs[holder])->0.flag,
                    },
                ),
            ),
        ),
{
    let guard = held(sys.runs[holder])->0;
    assert(state_of(sys.states, guard.id) == StackActionState::claimed(guard.flag));
}

/// Once no command holds the claim on a stack, the next command that comes
/// to claim it gets the claim.
pub proof fn lemma_claim_is_granted_when_free(sys: System, id: Seq<char>, event: Event)
    requires
        coherent(sys),
        0 <= event.run < sys.runs.len(),
        forall|i: int| !holds(sys, i, id),
        about_to_claim(sys.runs[event.run], event.reply, id),
    ensures
        held(system_step(sys, event).runs[event.run]) == Some(
            ActionGuardView { id, flag: sys.runs[event.run].command.kind.spec_flag() },
        ),
        state_of(system_step(sys, event).states, id) == StackActionState::claimed(
            sys.runs[event.run].command.kind.spec_flag(),
        ),
{
    assert(!state_of(sys.states, id).spec_busy());
}

/// A command that has ended holds no claim, and a stack on which no command
/// holds a claim has no flag set: whichever way a command ends, it does not
/// leave its stack marked busy.
pub proof fn lemma_no_flag_without_claim(sys: System, id: Seq<char>)
    requires
        coherent(sys),
        forall|i: int| holds(sys, i, id) ==> sys.runs[i].phase is Finished,
    ensures
        state_of(sys.states, id) == StackActionState::idle(),
{
    if state_of(sys.states, id).spec_busy() {
        let i = choose|i: int| holds(sys, i, id);
        assert(holds(sys, i, id));
    }
}

} // verus!
