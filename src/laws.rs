use vstd::prelude::*;
use crate::controller::{
    Action, ControllerState, Event, Stage, cycle_start, fits, initial_state, next_state,
    pending_action, well_formed, BACKOFF_SECONDS, EXIT_OK, EXIT_STARTUP_FAILED,
};

verus! {

/// Whether each event of `inputs` reports the outcome of the action that is
/// pending when it arrives. An input is an event with what the shutdown flag
/// reads at that moment.
pub open spec fn admissible(s: ControllerState, inputs: Seq<(Event, bool)>) -> bool
    decreases inputs.len(),
{
    inputs.len() == 0 || (fits(s.stage, inputs[0].0) && admissible(
        next_state(s, inputs[0].0, inputs[0].1),
        inputs.drop_first(),
    ))
}

/// The state reached from `s` once every input is taken.
pub open spec fn run_end(s: ControllerState, inputs: Seq<(Event, bool)>) -> ControllerState
    decreases inputs.len(),
{
    if inputs.len() == 0 {
        s
    } else {
        run_end(next_state(s, inputs[0].0, inputs[0].1), inputs.drop_first())
    }
}

/// The actions asked for from `s`, one after each input.
pub open spec fn run_actions(s: ControllerState, inputs: Seq<(Event, bool)>) -> Seq<Action>
    decreases inputs.len(),
{
    if inputs.len() == 0 {
        Seq::empty()
    } else {
        let t = next_state(s, inputs[0].0, inputs[0].1);
        seq![pending_action(t.stage)] + run_actions(t, inputs.drop_first())
    }
}

/// The readiness values that `actions` publish, in order.
pub open spec fn readiness_writes(actions: Seq<Action>) -> Seq<bool>
    decreases actions.len(),
{
    if actions.len() == 0 {
        Seq::empty()
    } else {
        let rest = readiness_writes(actions.drop_first());
        match actions[0] {
            Action::SetReady(b) => seq![b] + rest,
            _ => rest,
        }
    }
}

/// How many readiness writes a run from the start has asked for by the time
/// it stands at `stage`.
pub open spec fn writes_made(stage: Stage) -> nat {
    match stage {
        Stage::Connecting => 0,
        Stage::Stopped(c) => if c == EXIT_OK {
            2
        } else {
            0
        },
        Stage::Withdrawing | Stage::Revoking | Stage::Joining => 2,
        _ => 1,
    }
}

/// The first `n` readiness writes of a whole run: `true`, then `false`.
pub open spec fn readiness_log(n: nat) -> Seq<bool> {
    seq![true, false].take(n as int)
}

/// Deleting the message at `i`, then processing and deleting each later one
/// of the `n`, in order.
pub open spec fn drain_actions(i: nat, n: nat) -> Seq<Action>
    decreases n - i,
{
    if i + 1 < n {
        seq![Action::Delete(i as usize), Action::Process((i + 1) as usize)] + drain_actions(
            i + 1,
            n,
        )
    } else {
        seq![Action::Delete(i as usize)]
    }
}

proof fn lemma_run_len(s: ControllerState, inputs: Seq<(Event, bool)>)
    ensures
        run_actions(s, inputs).len() == inputs.len(),
    decreases inputs.len(),
{
    if inputs.len() > 0 {
        lemma_run_len(next_state(s, inputs[0].0, inputs[0].1), inputs.drop_first());
    }
}

proof fn lemma_next_well_formed(s: ControllerState, e: Event, shutdown: bool)
    requires
        well_formed(s),
        fits(s.stage, e),
    ensures
        well_formed(next_state(s, e, shutdown)),
{
}

proof fn lemma_writes_prepend(a: Action, rest: Seq<Action>)
    ensures
        readiness_writes(seq![a] + rest) == readiness_writes(seq![a]) + readiness_writes(rest),
{
    let whole = seq![a] + rest;
    assert(whole.drop_first() =~= rest);
    assert(seq![a].drop_first() =~= Seq::<Action>::empty());
    assert(readiness_writes(Seq::<Action>::empty()) =~= Seq::<bool>::empty());
    match a {
        Action::SetReady(b) => {},
        _ => {
            assert(readiness_writes(seq![a]) =~= Seq::<bool>::empty());
            assert(readiness_writes(seq![a]) + readiness_writes(rest) =~= readiness_writes(rest));
        },
    }
}

proof fn lemma_step_writes(s: ControllerState, e: Event, shutdown: bool)
    requires
        well_formed(s),
        fits(s.stage, e),
    ensures
        readiness_log(writes_made(s.stage)) + readiness_writes(
            seq![pending_action(next_state(s, e, shutdown).stage)],
        ) =~= readiness_log(writes_made(next_state(s, e, shutdown).stage)),
{
    let a = pending_action(next_state(s, e, shutdown).stage);
    assert(seq![a].drop_first() =~= Seq::<Action>::empty());
    assert(readiness_writes(Seq::<Action>::empty()) =~= Seq::<bool>::empty());
}

proof fn lemma_writes_from(s: ControllerState, inputs: Seq<(Event, bool)>)
    requires
        well_formed(s),
        admissible(s, inputs),
    ensures
        readiness_log(writes_made(s.stage)) + readiness_writes(run_actions(s, inputs))
            =~= readiness_log(writes_made(run_end(s, inputs).stage)),
    decreases inputs.len(),
{
    if inputs.len() == 0 {
        assert(readiness_writes(Seq::<Action>::empty()) =~= Seq::<bool>::empty());
    } else {
        let (e, shutdown) = inputs[0];
        let t = next_state(s, e, shutdown);
        let a = pending_action(t.stage);
        let rest = inputs.drop_first();
        lemma_next_well_formed(s, e, shutdown);
        lemma_step_writes(s, e, shutdown);
        lemma_writes_prepend(a, run_actions(t, rest));
        lemma_writes_from(t, rest);
        assert(readiness_log(writes_made(s.stage)) + readiness_writes(run_actions(s, inputs))
            =~= (readiness_log(writes_made(s.stage)) + readiness_writes(seq![a]))
            + readiness_writes(run_actions(t, rest)));
    }
}

/// Readiness is written `true` once, when the queue client has been built,
/// and `false` once, when the shutdown starts, in that order, and never
/// otherwise: whatever the inputs, the values written so far are a prefix
/// of `true, false`, and a run that has stopped gracefully wrote exactly
/// those two. The write of `true` is the action that follows a successful
/// startup, and a failed startup writes nothing and exits non-zero.
pub proof fn lemma_readiness_written_twice(inputs: Seq<(Event, bool)>)
    requires
        admissible(initial_state(), inputs),
    ensures
        readiness_writes(run_actions(initial_state(), inputs)) == readiness_log(
            writes_made(run_end(initial_state(), inputs).stage),
        ),
        run_end(initial_state(), inputs).stage == Stage::Stopped(EXIT_OK) ==> readiness_writes(
            run_actions(initial_state(), inputs),
        ) == seq![true, false],
        inputs.len() > 0 && inputs[0].0 is Connected ==> run_actions(initial_state(), inputs)[0]
            == Action::SetReady(true),
        inputs.len() > 0 && inputs[0].0 is ConnectFailed ==> run_actions(initial_state(), inputs)
            =~= seq![Action::Exit(EXIT_STARTUP_FAILED)],
{
    let s = initial_state();
    lemma_writes_from(s, inputs);
    assert(readiness_log(0) =~= Seq::<bool>::empty());
    assert(readiness_log(2) =~= seq![true, false]);
    if inputs.len() > 0 && inputs[0].0 is ConnectFailed {
        let t = next_state(s, inputs[0].0, inputs[0].1);
        let rest = inputs.drop_first();
        assert(admissible(t, rest));
        assert(rest.len() == 0);
        assert(run_actions(t, rest) =~= Seq::<Action>::empty());
    }
}

/// The shutdown flag is read at the top of each cycle, before a receive is
/// issued, and nowhere else. Read `true` there, it starts the shutdown, whose
/// first action clears readiness; no new receive follows a step that read it
/// `true`. Anywhere else, in particular while a batch is in hand, the flag
/// does not change the step.
pub proof fn lemma_shutdown_read_before_each_receive(s: ControllerState, e: Event)
    requires
        well_formed(s),
        fits(s.stage, e),
    ensures
        next_state(s, e, true).stage != Stage::Polling,
        next_state(s, e, false).stage == Stage::Polling ==> next_state(s, e, true).stage
            == Stage::Withdrawing,
        next_state(s, e, false).stage == Stage::Polling ==> pending_action(
            next_state(s, e, true).stage,
        ) == Action::SetReady(false),
        next_state(s, e, false).stage != Stage::Polling ==> next_state(s, e, true)
            == next_state(s, e, false),
{
}

/// While the shutdown flag reads `true`, no receive is asked for, whatever
/// the events.
pub proof fn lemma_no_receive_after_shutdown(s: ControllerState, inputs: Seq<(Event, bool)>)
    requires
        well_formed(s),
        admissible(s, inputs),
        forall|k: int| 0 <= k < inputs.len() ==> #[trigger] inputs[k].1,
    ensures
        forall|k: int|
            0 <= k < inputs.len() ==> #[trigger] run_actions(s, inputs)[k] != Action::Receive,
    decreases inputs.len(),
{
    if inputs.len() > 0 {
        let (e, shutdown) = inputs[0];
        assert(inputs[0].1);
        let t = next_state(s, e, shutdown);
        let rest = inputs.drop_first();
        lemma_next_well_formed(s, e, shutdown);
        lemma_shutdown_read_before_each_receive(s, e);
        assert forall|k: int| 0 <= k < rest.len() implies #[trigger] rest[k].1 by {
            assert(rest[k] == inputs[k + 1]);
        }
        lemma_no_receive_after_shutdown(t, rest);
        lemma_run_len(t, rest);
        assert forall|k: int| 0 <= k < inputs.len() implies #[trigger] run_actions(s, inputs)[k]
            != Action::Receive by {
            if k > 0 {
                assert(run_actions(s, inputs)[k] == run_actions(t, rest)[k - 1]);
            }
        }
    }
}

/// A batch in hand is worked off whole before anything else happens, whatever
/// the shutdown flag reads meanwhile and whatever the processing steps and
/// deletes report: from the processing of message `i` of `n`, the actions
/// delete message `i`, then process and delete each later message in order,
/// and then the next cycle starts, with the flag as read after the last
/// delete.
pub proof fn lemma_batch_drained(s: ControllerState, i: usize, inputs: Seq<(Event, bool)>)
    requires
        well_formed(s),
        s.stage == Stage::Processing(i),
        s.batch.len() <= usize::MAX,
        admissible(s, inputs),
        inputs.len() == 2 * (s.batch.len() - i),
    ensures
        run_actions(s, inputs) == drain_actions(i as nat, s.batch.len()) + seq![
            pending_action(cycle_start(inputs.last().1)),
        ],
        run_end(s, inputs).stage == cycle_start(inputs.last().1),
    decreases s.batch.len() - i,
{
    let n = s.batch.len();
    let t1 = next_state(s, inputs[0].0, inputs[0].1);
    let rest = inputs.drop_first();
    let t2 = next_state(t1, rest[0].0, rest[0].1);
    let rest2 = rest.drop_first();
    assert(rest.last() == inputs.last());
    assert(admissible(t1, rest));
    assert(t1 == ControllerState { stage: Stage::Deleting(i), batch: s.batch });
    assert(admissible(t2, rest2));
    assert(run_actions(s, inputs) == seq![Action::Delete(i)] + run_actions(t1, rest));
    assert(run_actions(t1, rest) == seq![pending_action(t2.stage)] + run_actions(t2, rest2));
    assert(run_end(s, inputs) == run_end(t1, rest));
    assert(run_end(t1, rest) == run_end(t2, rest2));
    if i + 1 < n {
        assert(t2 == ControllerState { stage: Stage::Processing((i + 1) as usize), batch: s.batch });
        assert(rest2.last() == inputs.last());
        lemma_batch_drained(t2, (i + 1) as usize, rest2);
        assert(run_actions(s, inputs) =~= seq![Action::Delete(i), Action::Process((i + 1) as usize)]
            + run_actions(t2, rest2));
    } else {
        assert(rest2.len() == 0);
        assert(run_actions(t2, rest2) =~= Seq::<Action>::empty());
        assert(run_actions(s, inputs) =~= seq![Action::Delete(i)] + seq![pending_action(t2.stage)]);
    }
}

/// The fixed delay is asked for exactly after a failed receive: never after a
/// receive that succeeded, empty or not, nor anywhere else. When the delay
/// is over, the next cycle starts at once.
pub proof fn lemma_backoff_only_after_failed_receive(s: ControllerState, e: Event, shutdown: bool)
    requires
        well_formed(s),
        fits(s.stage, e),
    ensures
        pending_action(next_state(s, e, shutdown).stage) == Action::Sleep(BACKOFF_SECONDS) <==> (
        s.stage == Stage::Polling && e is ReceiveFailed),
        s.stage == Stage::BackingOff ==> next_state(s, e, shutdown).stage == cycle_start(shutdown),
{
}

} // verus!
