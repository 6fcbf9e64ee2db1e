//! How long the server rests before it looks at the store again.
//!
//! The pairing task and a connection that waits for the other player look
//! at the store over and over.  They rest in between, longer after every
//! failure or idle look up to a bound, and a little is added to each rest so
//! that tasks started together do not wake together.

use vstd::prelude::*;

verus! {

/// The shortest rest of the pairing task after a failure, in milliseconds.
pub const FAILURE_REST_MS: u64 = 100;

/// The rest of the pairing task when fewer than two players wait, in
/// milliseconds.
pub const IDLE_REST_MS: u64 = 200;

/// The shortest rest of a connection that waits for the other player, in
/// milliseconds.
pub const READINESS_REST_MS: u64 = 50;

/// The bound on what is added to a rest, in milliseconds.
pub const JITTER_MS: u64 = 100;

/// Two to the power of `k`, for `k` up to 6; 64 above that.
pub open spec fn doubled(k: u32) -> u64 {
    if k == 0 {
        1
    } else if k == 1 {
        2
    } else if k == 2 {
        4
    } else if k == 3 {
        8
    } else if k == 4 {
        16
    } else if k == 5 {
        32
    } else {
        64
    }
}

/// Computes two to the power of `k`, bounded by 64.
pub fn doubling(k: u32) -> (r: u64)
    ensures
        r == doubled(k),
        1 <= r <= 64,
{
    if k == 0 {
        1
    } else if k == 1 {
        2
    } else if k == 2 {
        4
    } else if k == 3 {
        8
    } else if k == 4 {
        16
    } else if k == 5 {
        32
    } else {
        64
    }
}

/// How a round of the pairing task ended.
#[derive(Clone, Copy, Debug, PartialEq, Eq, Structural)]
pub enum RoundOutcome {
    /// Two players waited and were taken from the queue.
    Paired,
    /// Fewer than two players waited.
    Idle,
    /// The store failed.
    Failed,
}

/// What follows a round of the pairing task that ended as `outcome` after
/// `failures` failures in a row: the new count of failures in a row, and
/// the rest before the next round in milliseconds.  After a pairing the
/// task looks again at once; an idle round is followed by a fixed rest; the
/// rest after a failure doubles with each failure in a row, up to 64 times
/// the shortest.  `jitter` is any number; its remainder is what is added.
pub open spec fn round_rest(failures: u32, outcome: RoundOutcome, jitter: u64) -> (u32, u64) {
    match outcome {
        RoundOutcome::Paired => (0, 0),
        RoundOutcome::Idle => (0, (IDLE_REST_MS + jitter % JITTER_MS) as u64),
        RoundOutcome::Failed => (
            if failures == u32::MAX {
                failures
            } else {
                (failures + 1) as u32
            },
            (FAILURE_REST_MS * doubled(failures) + jitter % JITTER_MS) as u64,
        ),
    }
}

/// Decides what follows a round of the pairing task.
pub fn after_round(failures: u32, outcome: RoundOutcome, jitter: u64) -> (r: (u32, u64))
    ensures
        r == round_rest(failures, outcome, jitter),
        r.1 < 6500,
{
    match outcome {
        RoundOutcome::Paired => (0, 0),
        RoundOutcome::Idle => (0, IDLE_REST_MS + jitter % JITTER_MS),
        RoundOutcome::Failed => {
            let next = if failures == u32::MAX {
                failures
            } else {
                failures + 1
            };
            (next, FAILURE_REST_MS * doubling(failures) + jitter % JITTER_MS)
        },
    }
}

/// What follows a look at the readiness of a game that found the other
/// player missing, after `looks` such looks: the new count, and the rest
/// before the next look in milliseconds, which doubles with each look up to
/// 32 times the shortest.
pub open spec fn readiness_rest(looks: u32, jitter: u64) -> (u32, u64) {
    (
        if looks == u32::MAX {
            looks
        } else {
            (looks + 1) as u32
        },
        (READINESS_REST_MS * doubled(if looks < 5 {
            looks
        } else {
            5
        }) + jitter % JITTER_MS) as u64,
    )
}

/// Decides how long a connection rests before it looks at the readiness of
/// its game again.
pub fn after_look(looks: u32, jitter: u64) -> (r: (u32, u64))
    ensures
        r == readiness_rest(looks, jitter),
        r.1 < 1700,
{
    let next = if looks == u32::MAX {
        looks
    } else {
        looks + 1
    };
    let step = if looks < 5 {
        looks
    } else {
        5
    };
    (next, READINESS_REST_MS * doubling(step) + jitter % JITTER_MS)
}

} // verus!
