//! What the transport engine can answer to an action.

use crate::identity::Identity;
use vstd::prelude::*;

verus! {

/// What the remote side reports of a file that it is about to send.
#[derive(Clone, Copy, Debug, PartialEq, Eq)]
pub struct FileStat {
    /// The length of the file in bytes.
    pub size: u64,
    /// The permission bits of the file.
    pub mode: i32,
    /// When the file was last changed, in seconds since the epoch, where the
    /// engine passes it on.
    pub mtime: Option<u64>,
}

/// The answer to the action that an operation asked for last.
#[derive(Debug)]
pub enum Reply {
    /// The action was carried out.
    Done,
    /// The action failed.
    Failed,
    /// A read brought these bytes.
    Data(Vec<u8>),
    /// A read found the end of the stream.
    End,
    /// A write took this many of the bytes that were offered.
    Wrote(usize),
    /// The remote side agreed to send a file with this metadata.
    Stat(FileStat),
    /// The agent's identities as they were listed.
    Keys(Vec<Identity>),
}

/// Whether every answer in the row brings bytes.
pub open spec fn all_data(replies: Seq<Reply>) -> bool {
    forall|i: int| 0 <= i < replies.len() ==> #[trigger] replies[i] is Data
}

/// The bytes that a row of answers brings, in their order.
pub open spec fn payload(replies: Seq<Reply>) -> Seq<u8>
    decreases replies.len(),
{
    if replies.len() == 0 {
        Seq::empty()
    } else {
        match replies[0] {
            Reply::Data(chunk) => chunk@ + payload(replies.skip(1)),
            _ => payload(replies.skip(1)),
        }
    }
}

} // verus!
