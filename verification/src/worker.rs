use vstd::prelude::*;
use crate::control::{Command, apply, settle};
use crate::parsed_packet::PacketView;

verus! {

/// The commands a checkpoint absorbs at iteration `i`; past the end of
/// the schedule, none.
pub open spec fn ctrl_at(ctrl: Seq<Seq<Command>>, i: int) -> Seq<Command> {
    if 0 <= i < ctrl.len() {
        ctrl[i]
    } else {
        Seq::empty()
    }
}

pub open spec fn ctrl_rest(ctrl: Seq<Seq<Command>>) -> Seq<Seq<Command>> {
    if ctrl.len() > 0 {
        ctrl.drop_first()
    } else {
        ctrl
    }
}

/// The records a run of decode outcomes yields when nothing pauses or
/// stops the worker: rejected frames are dropped, every decoded record
/// passes, in order, exactly once.
pub open spec fn forwarded(outcomes: Seq<Option<PacketView>>) -> Seq<PacketView>
    decreases outcomes.len(),
{
    if outcomes.len() == 0 {
        Seq::empty()
    } else {
        match outcomes[0] {
            Some(p) => seq![p] + forwarded(outcomes.drop_first()),
            None => forwarded(outcomes.drop_first()),
        }
    }
}

/// The parser worker's loop, as mathematics, over the decode outcomes of
/// the frames the capture source hands it.  At iteration `i` the worker
/// holds a checkpoint: it absorbs the commands `ctrl[i]`, blocking
/// through any pause until the run settles.  Only a settled `Proceed`
/// lets it process the next frame; a settled `Paused` leaves it blocked
/// where it stands, and a settled `Exiting` ends the loop.
pub open spec fn worker_run(outcomes: Seq<Option<PacketView>>, ctrl: Seq<Seq<Command>>) -> Seq<
    PacketView,
>
    decreases outcomes.len(),
{
    if outcomes.len() == 0 {
        Seq::empty()
    } else if settle(ctrl_at(ctrl, 0)) is Proceed {
        let rest = worker_run(outcomes.drop_first(), ctrl_rest(ctrl));
        match outcomes[0] {
            Some(p) => seq![p] + rest,
            None => rest,
        }
    } else {
        Seq::empty()
    }
}

/// Resume wakes exactly the intended worker: as long as every checkpoint
/// settles on `Proceed` — pauses followed by resumes, in any number —
/// the worker emits exactly the records of the decodable frames, in
/// capture order: nothing queued before a pause is re-emitted, nothing
/// is dropped.  A rejected frame, in particular, never stops the frames
/// after it.
pub proof fn lemma_resume_continues_stream(
    outcomes: Seq<Option<PacketView>>,
    ctrl: Seq<Seq<Command>>,
)
    requires
        forall|i: int| 0 <= i < outcomes.len() ==> settle(#[trigger] ctrl_at(ctrl, i)) is Proceed,
    ensures
        worker_run(outcomes, ctrl) == forwarded(outcomes),
    decreases outcomes.len(),
{
    if outcomes.len() > 0 {
        assert(settle(ctrl_at(ctrl, 0)) is Proceed);
        assert forall|i: int| 0 <= i < outcomes.drop_first().len() implies settle(
            #[trigger] ctrl_at(ctrl_rest(ctrl), i),
        ) is Proceed by {
            assert(ctrl_at(ctrl_rest(ctrl), i) == ctrl_at(ctrl, i + 1));
        }
        lemma_resume_continues_stream(outcomes.drop_first(), ctrl_rest(ctrl));
    }
}

/// Terminate is final: once the checkpoint at `j` settles on `Exiting`,
/// the worker emits only what the first `j` iterations emitted — no
/// matter what commands, a resume included, arrive afterwards.
pub proof fn lemma_terminate_is_final(
    outcomes: Seq<Option<PacketView>>,
    ctrl: Seq<Seq<Command>>,
    j: int,
)
    requires
        0 <= j < outcomes.len(),
        settle(ctrl_at(ctrl, j)) is Exiting,
        forall|i: int| 0 <= i < j ==> settle(#[trigger] ctrl_at(ctrl, i)) is Proceed,
    ensures
        worker_run(outcomes, ctrl) == forwarded(outcomes.take(j)),
    decreases j,
{
    if j == 0 {
    } else {
        assert(settle(ctrl_at(ctrl, 0)) is Proceed);
        assert forall|i: int| 0 <= i < j - 1 implies settle(
            #[trigger] ctrl_at(ctrl_rest(ctrl), i),
        ) is Proceed by {
            assert(ctrl_at(ctrl_rest(ctrl), i) == ctrl_at(ctrl, i + 1));
        }
        assert(ctrl_at(ctrl_rest(ctrl), j - 1) == ctrl_at(ctrl, j));
        lemma_terminate_is_final(outcomes.drop_first(), ctrl_rest(ctrl), j - 1);
        let t = outcomes.take(j);
        assert(t[0] == outcomes[0]);
        assert(t.drop_first() =~= outcomes.drop_first().take(j - 1));
    }
}

/// A checkpoint that stays paused emits nothing: no frame is processed
/// while the worker waits.
pub proof fn lemma_paused_emits_nothing(outcomes: Seq<Option<PacketView>>, ctrl: Seq<Seq<Command>>)
    requires
        settle(ctrl_at(ctrl, 0)) is Paused,
    ensures
        worker_run(outcomes, ctrl) == Seq::<PacketView>::empty(),
{
}

proof fn lemma_run_settle_congruence(
    outcomes: Seq<Option<PacketView>>,
    c1: Seq<Seq<Command>>,
    c2: Seq<Seq<Command>>,
)
    requires
        forall|i: int|
            0 <= i < outcomes.len() ==> settle(#[trigger] ctrl_at(c1, i)) == settle(ctrl_at(c2, i)),
    ensures
        worker_run(outcomes, c1) == worker_run(outcomes, c2),
    decreases outcomes.len(),
{
    if outcomes.len() > 0 {
        assert(settle(ctrl_at(c1, 0)) == settle(ctrl_at(c2, 0)));
        assert forall|i: int| 0 <= i < outcomes.drop_first().len() implies settle(
            #[trigger] ctrl_at(ctrl_rest(c1), i),
        ) == settle(ctrl_at(ctrl_rest(c2), i)) by {
            assert(ctrl_at(ctrl_rest(c1), i) == ctrl_at(c1, i + 1));
            assert(ctrl_at(ctrl_rest(c2), i) == ctrl_at(c2, i + 1));
        }
        lemma_run_settle_congruence(outcomes.drop_first(), ctrl_rest(c1), ctrl_rest(c2));
    }
}

/// Pause idempotence, in the trace: a checkpoint already settling on
/// `Paused` settles just the same when one more pause arrives, so the
/// worker's whole output is unchanged — and, by
/// `lemma_paused_emits_nothing`, nothing is processed between the two
/// calls.
pub proof fn lemma_pause_twice_unchanged(
    outcomes: Seq<Option<PacketView>>,
    ctrl: Seq<Seq<Command>>,
    i: int,
)
    requires
        0 <= i < ctrl.len(),
        settle(ctrl[i]) is Paused,
    ensures
        worker_run(outcomes, ctrl.update(i, ctrl[i].push(Command::Paused))) == worker_run(
            outcomes,
            ctrl,
        ),
{
    let c2 = ctrl.update(i, ctrl[i].push(Command::Paused));
    assert(ctrl[i].push(Command::Paused).drop_last() =~= ctrl[i]);
    assert(settle(c2[i]) == apply(settle(ctrl[i]), Command::Paused));
    assert forall|n: int| 0 <= n < outcomes.len() implies settle(#[trigger] ctrl_at(c2, n))
        == settle(ctrl_at(ctrl, n)) by {
        if n != i {
            assert(ctrl_at(c2, n) == ctrl_at(ctrl, n));
        }
    }
    lemma_run_settle_congruence(outcomes, c2, ctrl);
}

} // verus!
