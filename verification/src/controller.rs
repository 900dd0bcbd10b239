//! The playback controller: the strictly sequential state machine that owns
//! the one live audio sink.
//!
//! The controller never touches the device itself.  For each command it
//! updates its observable state and tells the worker, through a
//! [`SinkAction`], what to do to the physical sink.  The worker opens and
//! decodes the requested file *before* applying a `Play`/`PlayLoop` command
//! and reports the outcome as `load_ok`, so a decode failure leaves both the
//! state and the device untouched: failures are isolated, the loop keeps
//! running.

use vstd::prelude::*;

use crate::command::CommandModel;
use crate::command::Message;

verus! {

/// A loaded track: the resolved path of the asset and whether its decoded
/// source is wrapped in an infinite-repeat adapter.
#[derive(Debug)]
pub struct Track {
    pub path: String,
    pub looped: bool,
}

/// Mathematical model of a track.
pub struct TrackModel {
    pub path: Seq<char>,
    pub looped: bool,
}

impl View for Track {
    type V = TrackModel;

    open spec fn view(&self) -> TrackModel {
        TrackModel { path: self.path@, looped: self.looped }
    }
}

/// The controller's observable state.  At most one track is ever live: a new
/// `Play`/`PlayLoop` supersedes (stops and discards) whatever was loaded.
#[derive(Debug)]
pub enum PlayerState {
    Idle,
    Playing { path: String, looped: bool },
    Paused { path: String, looped: bool },
}

/// Mathematical model of the controller's state.
pub enum StateModel {
    Idle,
    Playing { path: Seq<char>, looped: bool },
    Paused { path: Seq<char>, looped: bool },
}

impl View for PlayerState {
    type V = StateModel;

    open spec fn view(&self) -> StateModel {
        match self {
            PlayerState::Idle => StateModel::Idle,
            PlayerState::Playing { path, looped } => (StateModel::Playing {
                path: path@,
                looped: *looped,
            }),
            PlayerState::Paused { path, looped } => (StateModel::Paused {
                path: path@,
                looped: *looped,
            }),
        }
    }
}

/// What the worker must do to the physical sink after a command was applied.
#[derive(Debug)]
pub enum SinkAction {
    /// Stop the sink (emptying its queue), append the freshly decoded source
    /// for this track, then play.  The stop always comes first, so the new
    /// source never sounds together with the old one.
    Replace(Track),
    /// Pause the sink; the loaded source stays queued.
    PauseSink,
    /// Let the paused sink play again.
    ResumeSink,
    /// Stop the sink, emptying its queue; nothing is appended.
    Halt,
    /// Do nothing to the sink.
    Stay,
}

/// Mathematical model of a sink action.
pub enum ActionModel {
    Replace(TrackModel),
    PauseSink,
    ResumeSink,
    Halt,
    Stay,
}

impl View for SinkAction {
    type V = ActionModel;

    open spec fn view(&self) -> ActionModel {
        match self {
            SinkAction::Replace(t) => ActionModel::Replace(t@),
            SinkAction::PauseSink => ActionModel::PauseSink,
            SinkAction::ResumeSink => ActionModel::ResumeSink,
            SinkAction::Halt => ActionModel::Halt,
            SinkAction::Stay => ActionModel::Stay,
        }
    }
}

/// The state after applying one command in state `s`.  `load_ok` is whether
/// the file of a `Play`/`PlayLoop` command could be opened and decoded; it is
/// meaningless for the other commands.
///
/// A successful `Play`/`PlayLoop` always moves to `Playing` with the new
/// track; a failed one changes nothing.  `Pause` only acts on `Playing`,
/// `Resume` only on `Paused`; `Stop` always leads to `Idle`.  So `Pause`
/// while idle or paused, `Resume` while idle or playing, and `Stop` while
/// idle leave the state unchanged.
pub open spec fn next_state(s: StateModel, c: CommandModel, load_ok: bool) -> StateModel {
    match c {
        CommandModel::Play(p) => if load_ok {
            StateModel::Playing { path: p, looped: false }
        } else {
            s
        },
        CommandModel::PlayLoop(p) => if load_ok {
            StateModel::Playing { path: p, looped: true }
        } else {
            s
        },
        CommandModel::Pause => match s {
            StateModel::Playing { path, looped } => StateModel::Paused { path, looped },
            _ => s,
        },
        CommandModel::Resume => match s {
            StateModel::Paused { path, looped } => StateModel::Playing { path, looped },
            _ => s,
        },
        CommandModel::Stop => StateModel::Idle,
    }
}

/// The sink action the worker is told to perform for one command in state
/// `s`.  Exactly the no-op transitions of [`next_state`] leave the device
/// alone (`Stay`), so an idempotent `Pause`/`Resume`/`Stop` raises no error
/// and touches nothing.
pub open spec fn action_for(s: StateModel, c: CommandModel, load_ok: bool) -> ActionModel {
    match c {
        CommandModel::Play(p) => if load_ok {
            ActionModel::Replace(TrackModel { path: p, looped: false })
        } else {
            ActionModel::Stay
        },
        CommandModel::PlayLoop(p) => if load_ok {
            ActionModel::Replace(TrackModel { path: p, looped: true })
        } else {
            ActionModel::Stay
        },
        CommandModel::Pause => if s is Playing {
            ActionModel::PauseSink
        } else {
            ActionModel::Stay
        },
        CommandModel::Resume => if s is Paused {
            ActionModel::ResumeSink
        } else {
            ActionModel::Stay
        },
        CommandModel::Stop => if s is Idle {
            ActionModel::Stay
        } else {
            ActionModel::Halt
        },
    }
}

/// The track a state holds, if any.
pub open spec fn track_of_state(s: StateModel) -> Option<TrackModel> {
    match s {
        StateModel::Idle => None,
        StateModel::Playing { path, looped } => Some(TrackModel { path, looped }),
        StateModel::Paused { path, looped } => Some(TrackModel { path, looped }),
    }
}

/// The state after a whole sequence of commands, each paired with its load
/// outcome, applied oldest first.
pub open spec fn run(s: StateModel, evs: Seq<(CommandModel, bool)>) -> StateModel
    decreases evs.len(),
{
    if evs.len() == 0 {
        s
    } else {
        run(next_state(s, evs[0].0, evs[0].1), evs.drop_first())
    }
}

/// The playback controller.  One per process; it alone owns the sink.
pub struct Controller {
    state: PlayerState,
}

impl View for Controller {
    type V = StateModel;

    closed spec fn view(&self) -> StateModel {
        self.state@
    }
}

impl Controller {
    /// A fresh controller is idle: nothing is loaded, nothing sounds.
    pub fn new() -> (c: Controller)
        ensures
            c@ == StateModel::Idle,
    {
        Controller { state: PlayerState::Idle }
    }

    /// The current observable state.
    pub fn state(&self) -> (s: &PlayerState)
        ensures
            s@ == self@,
    {
        &self.state
    }

    /// Apply one command.  `load_ok` reports whether the worker could open
    /// and decode the file of a `Play`/`PlayLoop` command; for the other
    /// commands it is ignored.  The new state and the returned action are
    /// exactly [`next_state`] and [`action_for`] of the old state and the
    /// command: a pure function of those alone.
    pub fn apply(&mut self, cmd: Message, load_ok: bool) -> (a: SinkAction)
        ensures
            final(self)@ == next_state(old(self)@, cmd@, load_ok),
            a@ == action_for(old(self)@, cmd@, load_ok),
    {
        match cmd {
            Message::Play(path) => {
                if load_ok {
                    let track_path = path.clone();
                    self.state = PlayerState::Playing { path, looped: false };
                    SinkAction::Replace(Track { path: track_path, looped: false })
                } else {
                    SinkAction::Stay
                }
            },
            Message::PlayLoop(path) => {
                if load_ok {
                    let track_path = path.clone();
                    self.state = PlayerState::Playing { path, looped: true };
                    SinkAction::Replace(Track { path: track_path, looped: true })
                } else {
                    SinkAction::Stay
                }
            },
            Message::Pause => {
                let mut prev = PlayerState::Idle;
                core::mem::swap(&mut prev, &mut self.state);
                match prev {
                    PlayerState::Playing { path, looped } => {
                        self.state = PlayerState::Paused { path, looped };
                        SinkAction::PauseSink
                    },
                    other => {
                        self.state = other;
                        SinkAction::Stay
                    },
                }
            },
            Message::Resume => {
                let mut prev = PlayerState::Idle;
                core::mem::swap(&mut prev, &mut self.state);
                match prev {
                    PlayerState::Paused { path, looped } => {
                        self.state = PlayerState::Playing { path, looped };
                        SinkAction::ResumeSink
                    },
                    other => {
                        self.state = other;
                        SinkAction::Stay
                    },
                }
            },
            Message::Stop => {
                match &self.state {
                    PlayerState::Idle => SinkAction::Stay,
                    _ => {
                        self.state = PlayerState::Idle;
                        SinkAction::Halt
                    },
                }
            },
        }
    }
}

/// Idempotence of the bare transport commands: a `Pause` while nothing is
/// playing, a `Resume` while nothing is paused, and a `Stop` while idle
/// leave the state exactly as it was and send nothing to the device — no
/// error is raised, the command is simply absorbed.
pub proof fn lemma_idempotent_no_ops(s: StateModel, c: CommandModel, load_ok: bool)
    requires
        (c is Pause && !(s is Playing)) || (c is Resume && !(s is Paused)) || (c is Stop
            && s is Idle),
    ensures
        next_state(s, c, load_ok) == s,
        action_for(s, c, load_ok) == ActionModel::Stay,
{
}

/// Determinism: the state after a command sequence followed by one more
/// command depends only on the state the sequence reached and on that last
/// command with its load outcome — never on the history that led there.
pub proof fn lemma_step_from_prior_state(
    s: StateModel,
    evs: Seq<(CommandModel, bool)>,
    e: (CommandModel, bool),
)
    ensures
        run(s, evs.push(e)) == next_state(run(s, evs), e.0, e.1),
    decreases evs.len(),
{
    if evs.len() == 0 {
        assert(run(s, evs) == s);
        assert(evs.push(e)[0] == e);
        let tail = evs.push(e).drop_first();
        assert(tail =~= Seq::<(CommandModel, bool)>::empty());
        assert(run(next_state(s, e.0, e.1), tail) == next_state(s, e.0, e.1));
        assert(run(s, evs.push(e)) == run(next_state(s, e.0, e.1), tail));
    } else {
        let nxt = next_state(s, evs[0].0, evs[0].1);
        assert(evs.push(e)[0] == evs[0]);
        assert(evs.push(e).drop_first() =~= evs.drop_first().push(e));
        lemma_step_from_prior_state(nxt, evs.drop_first(), e);
        assert(run(s, evs.push(e)) == run(nxt, evs.drop_first().push(e)));
        assert(run(s, evs) == run(nxt, evs.drop_first()));
    }
}

/// Two successfully loaded play commands applied in queue order end with the
/// controller playing exactly the later one, whatever state it started in:
/// the admission order to the queue alone decides which of two racing plays
/// is heard, and no mixed state exists.
pub proof fn lemma_latest_play_wins(s: StateModel, first: Seq<char>, second: Seq<char>)
    ensures
        run(
            s,
            seq![(CommandModel::Play(first), true), (CommandModel::Play(second), true)],
        ) == (StateModel::Playing { path: second, looped: false }),
{
    let e0 = (CommandModel::Play(first), true);
    let e1 = (CommandModel::Play(second), true);
    let evs = seq![e0, e1];
    let s1 = next_state(s, e0.0, e0.1);
    let s2 = next_state(s1, e1.0, e1.1);
    assert(seq![e1].drop_first() =~= Seq::<(CommandModel, bool)>::empty());
    assert(run(s2, seq![e1].drop_first()) == s2);
    assert(seq![e1][0] == e1);
    assert(run(s1, seq![e1]) == s2);
    assert(evs.drop_first() =~= seq![e1]);
    assert(evs[0] == e0);
    assert(run(s, evs) == s2);
    assert(s2 == (StateModel::Playing { path: second, looped: false }));
}

/// A loaded track is only ever unloaded by an explicit `Stop` or by a
/// superseding, successfully loaded `Play`/`PlayLoop` — in particular a
/// looped track never ends of itself; `Pause` and `Resume` keep it loaded.
pub proof fn lemma_track_survives_other_commands(
    s: StateModel,
    t: TrackModel,
    c: CommandModel,
    load_ok: bool,
)
    requires
        track_of_state(s) == Some(t),
        !(c is Stop),
        !((c is Play || c is PlayLoop) && load_ok),
    ensures
        track_of_state(next_state(s, c, load_ok)) == Some(t),
{
}

} // verus!
