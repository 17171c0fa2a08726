//! Where Discord's socket may be, and how a socket is read until enough came.

use vstd::prelude::*;
use crate::controller::output::MILLISECOND;
use crate::paths::{join_path, opt_bytes, path_in};
use crate::text::{decimal, decimal_text, join};

verus! {

/// How many sockets Discord may be listening on.
pub const SOCKET_COUNT: u64 = 10;

/// How long to hold still when a read would block.
pub const RETRY_PAUSE: u64 = 10 * MILLISECOND;

/// The directory to look for sockets in: the first of the candidates that is
/// set, else `/tmp`.
pub open spec fn socket_dir(candidates: Seq<Option<Seq<u8>>>) -> Seq<u8>
    decreases candidates.len(),
{
    if candidates.len() == 0 {
        vstd::utf8::encode_utf8("/tmp"@)
    } else {
        match candidates.first() {
            Some(dir) => dir,
            None => socket_dir(candidates.drop_first()),
        }
    }
}

/// The name of the socket number `id`.
pub open spec fn socket_name(id: nat) -> Seq<char> {
    "discord-ipc-"@ + decimal_text(id)
}

/// Where Discord's sockets may be, in the order in which they are tried, by
/// the values of `XDG_RUNTIME_DIR`, `TMPDIR`, `TMP` and `TEMP`.
pub fn socket_paths(
    xdg_runtime_dir: Option<Vec<u8>>,
    tmpdir: Option<Vec<u8>>,
    tmp: Option<Vec<u8>>,
    temp: Option<Vec<u8>>,
) -> (r: Vec<Vec<u8>>)
    ensures
        r@.len() == SOCKET_COUNT,
        forall|id: int|
            0 <= id < SOCKET_COUNT ==> #[trigger] r@[id]@ == path_in(
                socket_dir(
                    seq![
                        opt_bytes(xdg_runtime_dir),
                        opt_bytes(tmpdir),
                        opt_bytes(tmp),
                        opt_bytes(temp),
                    ],
                ),
                socket_name(id as nat),
            ),
{
    let ghost candidates = seq![
        opt_bytes(xdg_runtime_dir),
        opt_bytes(tmpdir),
        opt_bytes(tmp),
        opt_bytes(temp),
    ];
    let dir = if let Some(dir) = xdg_runtime_dir {
        dir
    } else if let Some(dir) = tmpdir {
        dir
    } else if let Some(dir) = tmp {
        dir
    } else if let Some(dir) = temp {
        dir
    } else {
        "/tmp".as_bytes_vec()
    };
    proof {
        reveal_with_fuel(socket_dir, 5);
        assert(candidates.drop_first() =~= candidates.skip(1));
        assert(candidates.drop_first().drop_first() =~= candidates.skip(2));
        assert(candidates.drop_first().drop_first().drop_first() =~= candidates.skip(3));
        assert(dir@ == socket_dir(candidates));
    }
    let mut paths: Vec<Vec<u8>> = Vec::new();
    let mut id: u64 = 0;
    while id < SOCKET_COUNT
        invariant
            id <= SOCKET_COUNT,
            paths@.len() == id,
            forall|k: int|
                0 <= k < id ==> #[trigger] paths@[k]@ == path_in(dir@, socket_name(k as nat)),
        decreases SOCKET_COUNT - id,
    {
        let name = join("discord-ipc-", decimal(id).as_str());
        paths.push(join_path(dir.as_slice(), name.as_str()));
        id += 1;
    }
    paths
}

/// How a read of the socket went.
#[derive(Debug, Clone, Copy, PartialEq, Eq, Structural)]
pub enum ReadOutcome {
    /// This many bytes came.
    Bytes(usize),
    /// Nothing came yet, or the read was interrupted.
    TryAgain,
    Failed,
}

/// What to do after a read of the socket.
#[derive(Debug, Clone, Copy, PartialEq, Eq, Structural)]
pub enum ReadAction {
    /// Everything came.
    Done,
    /// Read into the rest of the buffer.
    ReadOn,
    /// Hold still for `RETRY_PAUSE`, then read on.
    PauseAndReadOn,
    /// Discord closed the socket.
    SocketClosed,
    /// The read failed.
    ReadFailed,
}

/// Filling a buffer from the socket, however little each read brings.
#[derive(Debug, Clone, Copy, PartialEq, Eq, Structural)]
pub struct ReadExact {
    /// Bytes still missing.
    pub missing: usize,
}

/// How many bytes are missing after a read.
pub open spec fn missing_after(missing: nat, outcome: ReadOutcome) -> int {
    match outcome {
        ReadOutcome::Bytes(n) => missing - n,
        _ => missing as int,
    }
}

/// What to do after a read while so many bytes were missing.
pub open spec fn after_read(missing: nat, outcome: ReadOutcome) -> ReadAction {
    match outcome {
        ReadOutcome::Bytes(n) => if n == 0 {
            ReadAction::SocketClosed
        } else if n == missing {
            ReadAction::Done
        } else {
            ReadAction::ReadOn
        },
        ReadOutcome::TryAgain => ReadAction::PauseAndReadOn,
        ReadOutcome::Failed => ReadAction::ReadFailed,
    }
}

impl ReadExact {
    /// What to do first about a buffer that lacks `missing` bytes.
    pub fn start(missing: usize) -> (r: (ReadExact, ReadAction))
        ensures
            r.0.missing == missing,
            r.1 == if missing == 0 {
                ReadAction::Done
            } else {
                ReadAction::ReadOn
            },
    {
        let action = if missing == 0 {
            ReadAction::Done
        } else {
            ReadAction::ReadOn
        };
        (ReadExact { missing }, action)
    }

    /// Takes in how a read went. A read brings no more than was missing.
    pub fn on_read(&mut self, outcome: ReadOutcome) -> (r: ReadAction)
        requires
            outcome matches ReadOutcome::Bytes(n) ==> n <= old(self).missing,
        ensures
            final(self).missing == missing_after(old(self).missing as nat, outcome),
            r == after_read(old(self).missing as nat, outcome),
    {
        match outcome {
            ReadOutcome::Bytes(n) => {
                self.missing = self.missing - n;
                if n == 0 {
                    ReadAction::SocketClosed
                } else if self.missing == 0 {
                    ReadAction::Done
                } else {
                    ReadAction::ReadOn
                }
            },
            ReadOutcome::TryAgain => ReadAction::PauseAndReadOn,
            ReadOutcome::Failed => ReadAction::ReadFailed,
        }
    }
}

/// How many bytes a run of reads brought.
pub open spec fn brought(outcomes: Seq<ReadOutcome>) -> nat
    decreases outcomes.len(),
{
    if outcomes.len() == 0 {
        0
    } else {
        brought(outcomes.drop_last()) + match outcomes.last() {
            ReadOutcome::Bytes(n) => n as nat,
            _ => 0,
        }
    }
}

/// Whether reading goes on through a run of reads: each is made because the one
/// before did not end it, and brings no more than was missing.
pub open spec fn reads_on(missing: nat, outcomes: Seq<ReadOutcome>) -> bool
    decreases outcomes.len(),
{
    if outcomes.len() == 0 {
        missing > 0
    } else {
        let before = outcomes.drop_last();
        let left = (missing - brought(before)) as nat;
        let action = after_read(left, outcomes.last());
        &&& reads_on(missing, before)
        &&& outcomes.last() matches ReadOutcome::Bytes(n) ==> n <= left
        &&& action == ReadAction::ReadOn || action == ReadAction::PauseAndReadOn
    }
}

proof fn lemma_reading_on_lacks_something(missing: nat, outcomes: Seq<ReadOutcome>)
    requires
        reads_on(missing, outcomes),
    ensures
        brought(outcomes) < missing,
    decreases outcomes.len(),
{
    if outcomes.len() > 0 {
        lemma_reading_on_lacks_something(missing, outcomes.drop_last());
    }
}

/// In whatever pieces it comes, exactly what was missing is taken from the
/// socket: while reading goes on something is still missing, and it is done
/// exactly when all of it came.
pub proof fn law_reads_take_what_is_missing(
    missing: nat,
    outcomes: Seq<ReadOutcome>,
    last: ReadOutcome,
)
    requires
        reads_on(missing, outcomes),
        last matches ReadOutcome::Bytes(n) ==> n <= missing - brought(outcomes),
    ensures
        brought(outcomes) < missing,
        missing_after((missing - brought(outcomes)) as nat, last) == missing - brought(
            outcomes.push(last),
        ),
        after_read((missing - brought(outcomes)) as nat, last) == ReadAction::Done <==> brought(
            outcomes.push(last),
        ) == missing,
{
    lemma_reading_on_lacks_something(missing, outcomes);
    assert(outcomes.push(last).drop_last() =~= outcomes);
}

} // verus!
