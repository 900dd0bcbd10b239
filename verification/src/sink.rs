//! An abstract model of the one physical output sink, and the proofs that
//! the controller's state is an exact account of it.
//!
//! The worker realizes each [`ActionModel`] as the short sequence of
//! primitive device operations given by [`ops_of`].  The model says what
//! each primitive does to the sink's observable state (its queue of
//! appended sources and its paused flag); the lemmas below show that the
//! controller state tracks the sink exactly, that no command ever queues two
//! sources at once (no audible overlap), and that a looped source never ends
//! on its own.

use vstd::prelude::*;

use crate::command::CommandModel;
use crate::controller::ActionModel;
use crate::controller::StateModel;
use crate::controller::TrackModel;
use crate::controller::action_for;
use crate::controller::next_state;

verus! {

/// A primitive operation the worker performs on the physical sink.
pub enum SinkOp {
    /// Empty the sink's queue, discarding whatever source was loaded.
    StopOp,
    /// Append a decoded source to the sink's queue.
    AppendOp(TrackModel),
    /// Let sound flow: start, or resume after a pause.
    PlayOp,
    /// Halt sound flow; the queue is kept.
    PauseOp,
}

/// Observable state of the physical sink: the sources queued on it, oldest
/// first, and whether it is paused.
pub struct SinkModel {
    pub queued: Seq<TrackModel>,
    pub paused: bool,
}

/// What one primitive operation does to the sink.  Stopping only empties
/// the queue; whether the device also clears its paused flag does not
/// matter, because an empty queue is silent either way and every `Replace`
/// plays explicitly after appending.
pub open spec fn sink_after(k: SinkModel, op: SinkOp) -> SinkModel {
    match op {
        SinkOp::StopOp => SinkModel { queued: Seq::empty(), paused: k.paused },
        SinkOp::AppendOp(t) => SinkModel { queued: k.queued.push(t), paused: k.paused },
        SinkOp::PlayOp => SinkModel { queued: k.queued, paused: false },
        SinkOp::PauseOp => SinkModel { queued: k.queued, paused: true },
    }
}

/// The sink after a sequence of primitive operations, oldest first.
pub open spec fn sink_run(k: SinkModel, ops: Seq<SinkOp>) -> SinkModel
    decreases ops.len(),
{
    if ops.len() == 0 {
        k
    } else {
        sink_run(sink_after(k, ops[0]), ops.drop_first())
    }
}

/// The primitive operations that realize one sink action.  A `Replace`
/// stops the sink *before* appending the new source: installation always
/// follows a stop of the previous sink contents.
pub open spec fn ops_of(a: ActionModel) -> Seq<SinkOp> {
    match a {
        ActionModel::Replace(t) => seq![SinkOp::StopOp, SinkOp::AppendOp(t), SinkOp::PlayOp],
        ActionModel::PauseSink => seq![SinkOp::PauseOp],
        ActionModel::ResumeSink => seq![SinkOp::PlayOp],
        ActionModel::Halt => seq![SinkOp::StopOp],
        ActionModel::Stay => Seq::empty(),
    }
}

/// The primitive operations the worker performs for command `c` in state
/// `s` with load outcome `load_ok`.
pub open spec fn ops_for(s: StateModel, c: CommandModel, load_ok: bool) -> Seq<SinkOp> {
    ops_of(action_for(s, c, load_ok))
}

/// Passage of time: a playing, non-looped source reaches its natural end
/// and leaves the queue; a looped or paused source stays.
pub open spec fn sink_elapse(k: SinkModel) -> SinkModel {
    if k.queued.len() > 0 && !k.paused && !k.queued[0].looped {
        SinkModel { queued: k.queued.drop_first(), paused: k.paused }
    } else {
        k
    }
}

/// The controller state `s` is an exact account of the sink `k`: idle means
/// an empty (silent) queue, playing and paused mean exactly the one loaded
/// track is queued, with the matching paused flag.
pub open spec fn corresponds(k: SinkModel, s: StateModel) -> bool {
    match s {
        StateModel::Idle => k.queued.len() == 0,
        StateModel::Playing { path, looped } => k.queued.len() == 1 && k.queued[0]
            == (TrackModel { path, looped }) && !k.paused,
        StateModel::Paused { path, looped } => k.queued.len() == 1 && k.queued[0]
            == (TrackModel { path, looped }) && k.paused,
    }
}

/// At most one source is queued: nothing can sound over anything else.
pub open spec fn at_most_one_source(k: SinkModel) -> bool {
    k.queued.len() <= 1
}

proof fn lemma_sink_run_one(k: SinkModel, a: SinkOp)
    ensures
        sink_run(k, seq![a]) == sink_after(k, a),
{
    let tail = seq![a].drop_first();
    assert(tail =~= Seq::<SinkOp>::empty());
    assert(sink_run(sink_after(k, a), tail) == sink_after(k, a));
    assert(seq![a][0] == a);
}

proof fn lemma_sink_run_three(k: SinkModel, a: SinkOp, b: SinkOp, c: SinkOp)
    ensures
        sink_run(k, seq![a, b, c]) == sink_after(sink_after(sink_after(k, a), b), c),
{
    let k1 = sink_after(k, a);
    let k2 = sink_after(k1, b);
    let k3 = sink_after(k2, c);
    assert(seq![c].drop_first() =~= Seq::<SinkOp>::empty());
    assert(sink_run(k3, seq![c].drop_first()) == k3);
    assert(seq![c][0] == c);
    assert(sink_run(k2, seq![c]) == k3);
    assert(seq![b, c].drop_first() =~= seq![c]);
    assert(seq![b, c][0] == b);
    assert(sink_run(k1, seq![b, c]) == k3);
    assert(seq![a, b, c].drop_first() =~= seq![b, c]);
    assert(seq![a, b, c][0] == a);
    assert(sink_run(k, seq![a, b, c]) == k3);
}

/// The controller tracks the sink: starting from a sink its state accounts
/// for exactly, performing the operations it orders for any command leaves a
/// sink that its next state accounts for exactly.  With determinism of
/// [`next_state`], the sink's observable state after each command is a pure
/// function of the controller state before it and the command alone.
pub proof fn lemma_sink_tracks_controller(
    k: SinkModel,
    s: StateModel,
    c: CommandModel,
    load_ok: bool,
)
    requires
        corresponds(k, s),
    ensures
        corresponds(sink_run(k, ops_for(s, c, load_ok)), next_state(s, c, load_ok)),
{
    let ops = ops_for(s, c, load_ok);
    match action_for(s, c, load_ok) {
        ActionModel::Replace(t) => {
            lemma_sink_run_three(k, SinkOp::StopOp, SinkOp::AppendOp(t), SinkOp::PlayOp);
            assert(sink_run(k, ops).queued =~= Seq::<TrackModel>::empty().push(t));
        },
        ActionModel::PauseSink => {
            lemma_sink_run_one(k, SinkOp::PauseOp);
        },
        ActionModel::ResumeSink => {
            lemma_sink_run_one(k, SinkOp::PlayOp);
        },
        ActionModel::Halt => {
            lemma_sink_run_one(k, SinkOp::StopOp);
        },
        ActionModel::Stay => {
            assert(sink_run(k, ops) == k);
        },
    }
}

/// No audible overlap: executing the operations any command orders, on a
/// sink the state accounts for, never queues two sources at once — at every
/// intermediate point at most one source is queued — and a source is only
/// ever appended after an earlier stop has emptied the queue.
pub proof fn lemma_no_overlap(k: SinkModel, s: StateModel, c: CommandModel, load_ok: bool)
    requires
        corresponds(k, s),
    ensures
        forall|i: int|
            0 <= i <= ops_for(s, c, load_ok).len() ==> at_most_one_source(
                sink_run(k, ops_for(s, c, load_ok).take(i)),
            ),
        forall|i: int|
            0 <= i < ops_for(s, c, load_ok).len() && ops_for(s, c, load_ok)[i] is AppendOp
                ==> exists|j: int| 0 <= j < i && ops_for(s, c, load_ok)[j] is StopOp,
{
    let ops = ops_for(s, c, load_ok);
    assert(at_most_one_source(k));
    assert(ops.take(0) =~= Seq::<SinkOp>::empty());
    match action_for(s, c, load_ok) {
        ActionModel::Replace(t) => {
            assert(ops =~= seq![SinkOp::StopOp, SinkOp::AppendOp(t), SinkOp::PlayOp]);
            assert(ops.take(1) =~= seq![SinkOp::StopOp]);
            assert(ops.take(2) =~= seq![SinkOp::StopOp, SinkOp::AppendOp(t)]);
            assert(ops.take(3) =~= ops);
            lemma_sink_run_one(k, SinkOp::StopOp);
            assert(sink_run(k, ops.take(1)).queued.len() == 0);
            assert(seq![SinkOp::StopOp, SinkOp::AppendOp(t)].drop_first() =~= seq![
                SinkOp::AppendOp(t),
            ]);
            lemma_sink_run_one(sink_after(k, SinkOp::StopOp), SinkOp::AppendOp(t));
            assert(sink_run(k, ops.take(2)).queued.len() == 1);
            lemma_sink_run_three(k, SinkOp::StopOp, SinkOp::AppendOp(t), SinkOp::PlayOp);
            assert(sink_run(k, ops.take(3)).queued.len() == 1);
            assert forall|i: int|
                0 <= i < ops.len() && ops[i] is AppendOp implies exists|j: int|
                0 <= j < i && ops[j] is StopOp by {
                assert(ops[0] is StopOp);
                assert(i == 1);
            }
        },
        ActionModel::PauseSink => {
            assert(ops.take(1) =~= ops);
            lemma_sink_run_one(k, SinkOp::PauseOp);
        },
        ActionModel::ResumeSink => {
            assert(ops.take(1) =~= ops);
            lemma_sink_run_one(k, SinkOp::PlayOp);
        },
        ActionModel::Halt => {
            assert(ops.take(1) =~= ops);
            lemma_sink_run_one(k, SinkOp::StopOp);
        },
        ActionModel::Stay => {
        },
    }
}

/// A looped track never ends on its own: while the controller is playing a
/// looped track, the passage of time leaves the sink — and so the playing
/// state — exactly as it is.  Only a `Stop` or a superseding play ends it
/// (see `lemma_track_survives_other_commands`).
pub proof fn lemma_loop_plays_on(k: SinkModel, s: StateModel)
    requires
        corresponds(k, s),
        s matches StateModel::Playing { looped, .. } && looped,
    ensures
        sink_elapse(k) == k,
        corresponds(sink_elapse(k), s),
{
}

/// By contrast, a playing non-looped track does reach its natural end: the
/// queue empties and the sink is silent, as in the idle state.
pub proof fn lemma_single_track_runs_out(k: SinkModel, s: StateModel)
    requires
        corresponds(k, s),
        s matches StateModel::Playing { looped, .. } && !looped,
    ensures
        corresponds(sink_elapse(k), StateModel::Idle),
{
}

} // verus!
