//! The closed set of operations the playback controller understands.

use vstd::prelude::*;

verus! {

/// A playback command, fire-and-forget: it carries no handle back to the
/// caller.  `Play` and `PlayLoop` carry the resolved filesystem path of the
/// asset to play.
#[derive(Debug)]
pub enum Message {
    Play(String),
    PlayLoop(String),
    Pause,
    Resume,
    Stop,
}

/// The mathematical model of a command: paths are character sequences.
pub enum CommandModel {
    Play(Seq<char>),
    PlayLoop(Seq<char>),
    Pause,
    Resume,
    Stop,
}

impl View for Message {
    type V = CommandModel;

    open spec fn view(&self) -> CommandModel {
        match self {
            Message::Play(path) => CommandModel::Play(path@),
            Message::PlayLoop(path) => CommandModel::PlayLoop(path@),
            Message::Pause => CommandModel::Pause,
            Message::Resume => CommandModel::Resume,
            Message::Stop => CommandModel::Stop,
        }
    }
}

} // verus!
