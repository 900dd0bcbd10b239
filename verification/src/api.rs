//! Decision logic of the request boundary.
//!
//! The network layer around the library resolves a requested name against
//! the configured asset root and checks that the file exists; it hands the
//! library only plain values: the resolved path and the outcome of that
//! check.  The library decides whether a command is admitted at all — a
//! request for a missing file is rejected before anything could reach the
//! queue — and which acknowledgment the caller gets.  Past the admission
//! point the protocol is fire-and-forget: decode failures inside the worker
//! are never reported back here.

use vstd::prelude::*;

use vstd::string::StringSliceAdditionalSpecFns;

use crate::command::CommandModel;
use crate::command::Message;

verus! {

/// The discrete result code of an acknowledgment.
#[derive(Debug, Clone, Copy, PartialEq, Eq, Structural)]
pub enum ResponseCode {
    /// The command was admitted to the queue.
    Success,
    /// The request named a file that does not exist under the asset root.
    ParameterError,
    /// The command channel was unavailable; nothing was admitted.
    ServerError,
}

/// The acknowledgment returned to the caller: a message and a result code.
#[derive(Debug)]
pub struct ApiResponse {
    pub msg: String,
    pub code: ResponseCode,
}

/// A requested asset name is acceptable only as a single plain path
/// segment: nonempty, free of path separators (byte 47 `/` and byte 92
/// `\`), and neither `.` (byte 46) nor `..` — so resolving it under the
/// asset root can never escape the root by traversal.
pub open spec fn acceptable_name(bs: Seq<u8>) -> bool {
    &&& bs.len() > 0
    &&& forall|i: int| 0 <= i < bs.len() ==> bs[i] != 47u8 && bs[i] != 92u8
    &&& bs != seq![46u8]
    &&& bs != seq![46u8, 46u8]
}

/// Decide whether a requested name may be resolved under the asset root at
/// all: exactly the acceptable names pass.
pub fn valid_name(name: &str) -> (r: bool)
    ensures
        r == acceptable_name(name.spec_bytes()),
{
    let bs = name.as_bytes();
    if bs.len() == 0 {
        return false;
    }
    if bs.len() == 1 && bs[0] == 46u8 {
        proof {
            assert(bs@ =~= seq![46u8]);
        }
        return false;
    }
    if bs.len() == 2 && bs[0] == 46u8 && bs[1] == 46u8 {
        proof {
            assert(bs@ =~= seq![46u8, 46u8]);
        }
        return false;
    }
    let mut i: usize = 0;
    while i < bs.len()
        invariant
            0 <= i <= bs.len(),
            bs@ == name.spec_bytes(),
            forall|j: int| 0 <= j < i ==> bs@[j] != 47u8 && bs@[j] != 92u8,
        decreases bs.len() - i,
    {
        if bs[i] == 47u8 || bs[i] == 92u8 {
            return false;
        }
        i += 1;
    }
    true
}

/// Admit a play command only for an existing file: returns the command to
/// enqueue exactly when the existence check succeeded, and nothing — so
/// nothing can ever reach the queue, let alone the controller — when it
/// failed.
pub fn admit_play(path_exists: bool, path: String) -> (r: Option<Message>)
    ensures
        path_exists ==> (r matches Some(m) && m@ == CommandModel::Play(path@)),
        !path_exists ==> r is None,
{
    if path_exists {
        Some(Message::Play(path))
    } else {
        None
    }
}

/// Admit a looped play command, under the same rule as [`admit_play`].
pub fn admit_play_loop(path_exists: bool, path: String) -> (r: Option<Message>)
    ensures
        path_exists ==> (r matches Some(m) && m@ == CommandModel::PlayLoop(path@)),
        !path_exists ==> r is None,
{
    if path_exists {
        Some(Message::PlayLoop(path))
    } else {
        None
    }
}

/// The rejection returned when the requested file was not found; it is
/// produced before any send, so the controller never hears of the request.
pub fn not_found_response() -> (r: ApiResponse)
    ensures
        r.code == ResponseCode::ParameterError,
        r.msg@ == "File not found"@,
{
    ApiResponse { msg: "File not found".to_owned(), code: ResponseCode::ParameterError }
}

/// The acknowledgment after an admitted command was handed to the channel:
/// success exactly when the enqueue succeeded, a server error when the
/// channel was unavailable — in which case the controller state is
/// untouched, since nothing entered the queue.
pub fn enqueue_response(sent: bool) -> (r: ApiResponse)
    ensures
        sent ==> r.code == ResponseCode::Success && r.msg@ == "success"@,
        !sent ==> r.code == ResponseCode::ServerError && r.msg@ == "command channel closed"@,
{
    if sent {
        ApiResponse { msg: "success".to_owned(), code: ResponseCode::Success }
    } else {
        ApiResponse { msg: "command channel closed".to_owned(), code: ResponseCode::ServerError }
    }
}

} // verus!
