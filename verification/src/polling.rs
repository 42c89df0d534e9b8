//! The pull side of event delivery: which long-poll request comes next,
//! and after how long.

use vstd::arithmetic::power2::{lemma_pow2_unfold, pow2};
use vstd::prelude::*;

verus! {

/// The backoff stops doubling at two to this power.
pub const MAX_BACKOFF_EXPONENT: u32 = 6;

/// Seconds to wait before the retry that follows `error_count` failures in
/// a row: one, two, four and so on, up to sixty-four.
pub open spec fn backoff_secs(error_count: u32) -> nat {
    if error_count < MAX_BACKOFF_EXPONENT {
        pow2(error_count as nat)
    } else {
        pow2(MAX_BACKOFF_EXPONENT as nat)
    }
}

/// Computes the wait before the next retry.
pub fn exponential_backoff_strategy(error_count: u32) -> (secs: u64)
    ensures
        secs == backoff_secs(error_count),
        1 <= secs <= 64,
{
    let exponent: u32 = if error_count < MAX_BACKOFF_EXPONENT {
        error_count
    } else {
        MAX_BACKOFF_EXPONENT
    };
    let mut secs: u64 = 1;
    let mut done: u32 = 0;
    proof {
        vstd::arithmetic::power2::lemma2_to64();
    }
    while done < exponent
        invariant
            done <= exponent <= 6,
            secs == pow2(done as nat),
            1 <= secs <= pow2(6) == 64,
        decreases exponent - done,
    {
        proof {
            lemma_pow2_unfold((done + 1) as nat);
            if done + 1 < 6 {
                vstd::arithmetic::power2::lemma_pow2_strictly_increases((done + 1) as nat, 6);
            }
        }
        secs = secs * 2;
        done = done + 1;
    }
    secs
}

/// The state of the polling loop.
#[derive(Clone, Copy, Debug, PartialEq, Eq, Structural)]
pub struct Polling {
    /// The cursor of the next request: updates below it are confirmed.
    pub cursor: u64,
    /// How many requests have failed in a row.
    pub error_count: u32,
    /// Whether shutdown was asked for.
    pub cancelled: bool,
}

/// How one long-poll request ended.
#[derive(Clone, Copy, Debug, PartialEq, Eq, Structural)]
pub enum PollOutcome {
    /// The request succeeded; `newest` is the identifier of the last update
    /// it brought, if it brought any.
    Updates { newest: Option<u32> },
    /// The request failed in a way that may pass.
    TransientFailure,
    /// The platform refused the cursor.
    CursorInvalid,
}

/// What the polling loop is to do next.
#[derive(Clone, Copy, Debug, PartialEq, Eq, Structural)]
pub enum PollAction {
    /// Wait `delay_secs` seconds, then ask for the updates from `cursor` on.
    Poll { cursor: u64, delay_secs: u64 },
    /// Stop polling.
    Stop,
}

/// The cursor after a request that brought updates up to `newest`: past the
/// newest update, and never back.
pub open spec fn advanced(cursor: u64, newest: Option<u32>) -> u64 {
    match newest {
        Some(id) if id + 1 > cursor => (id + 1) as u64,
        _ => cursor,
    }
}

/// The polling loop's step function.
pub open spec fn poll_step(state: Polling, outcome: PollOutcome) -> (Polling, PollAction) {
    if state.cancelled {
        (state, PollAction::Stop)
    } else {
        match outcome {
            PollOutcome::Updates { newest } => {
                let cursor = advanced(state.cursor, newest);
                (
                    Polling { cursor, error_count: 0, cancelled: false },
                    PollAction::Poll { cursor, delay_secs: 0 },
                )
            },
            PollOutcome::TransientFailure => (
                Polling {
                    cursor: state.cursor,
                    error_count: if state.error_count < u32::MAX {
                        (state.error_count + 1) as u32
                    } else {
                        state.error_count
                    },
                    cancelled: false,
                },
                PollAction::Poll {
                    cursor: state.cursor,
                    delay_secs: backoff_secs(state.error_count) as u64,
                },
            ),
            PollOutcome::CursorInvalid => (
                Polling { cursor: 0, error_count: 0, cancelled: false },
                PollAction::Poll { cursor: 0, delay_secs: 0 },
            ),
        }
    }
}

impl Polling {
    /// The state before the first request, and the request to begin with.
    pub fn start() -> (r: (Polling, PollAction))
        ensures
            r.0 == (Polling { cursor: 0, error_count: 0, cancelled: false }),
            r.1 == (PollAction::Poll { cursor: 0, delay_secs: 0 }),
    {
        (
            Polling { cursor: 0, error_count: 0, cancelled: false },
            PollAction::Poll { cursor: 0, delay_secs: 0 },
        )
    }

    /// Records that shutdown was asked for: the next step stops the loop.
    pub fn cancel(self) -> (state: Polling)
        ensures
            state == (Polling { cancelled: true, ..self }),
    {
        Polling { cursor: self.cursor, error_count: self.error_count, cancelled: true }
    }

    /// Takes the outcome of the last request and decides on the next.
    pub fn next(self, outcome: PollOutcome) -> (r: (Polling, PollAction))
        ensures
            r == poll_step(self, outcome),
    {
        if self.cancelled {
            return (self, PollAction::Stop);
        }
        match outcome {
            PollOutcome::Updates { newest } => {
                let cursor: u64 = match newest {
                    Some(id) => {
                        let past: u64 = id as u64 + 1;
                        if past > self.cursor {
                            past
                        } else {
                            self.cursor
                        }
                    },
                    None => self.cursor,
                };
                (
                    Polling { cursor, error_count: 0, cancelled: false },
                    PollAction::Poll { cursor, delay_secs: 0 },
                )
            },
            PollOutcome::TransientFailure => {
                let delay_secs = exponential_backoff_strategy(self.error_count);
                let error_count = if self.error_count < u32::MAX {
                    self.error_count + 1
                } else {
                    self.error_count
                };
                (
                    Polling { cursor: self.cursor, error_count, cancelled: false },
                    PollAction::Poll { cursor: self.cursor, delay_secs },
                )
            },
            PollOutcome::CursorInvalid => (
                Polling { cursor: 0, error_count: 0, cancelled: false },
                PollAction::Poll { cursor: 0, delay_secs: 0 },
            ),
        }
    }
}

/// Polling ends on cancellation and on nothing else. Until then every
/// outcome leads to another request: at once after a success or a refused
/// cursor, after at most sixty-four seconds after a failure; and only a
/// refused cursor moves the cursor back.
pub proof fn polling_never_gives_up(state: Polling, outcome: PollOutcome)
    ensures
        ({
            let (next, action) = poll_step(state, outcome);
            &&& action is Stop <==> state.cancelled
            &&& next.cancelled == state.cancelled
            &&& action matches PollAction::Poll { cursor, delay_secs } ==> cursor == next.cursor
                && delay_secs <= 64 && (delay_secs > 0 ==> outcome is TransientFailure)
            &&& !(outcome is CursorInvalid) ==> next.cursor >= state.cursor
            &&& outcome matches PollOutcome::Updates { newest: Some(id) } ==> state.cancelled
                || next.cursor > id
        }),
{
    vstd::arithmetic::power2::lemma2_to64();
    if state.error_count < MAX_BACKOFF_EXPONENT {
        vstd::arithmetic::power2::lemma_pow2_strictly_increases(
            state.error_count as nat,
            MAX_BACKOFF_EXPONENT as nat,
        );
    }
}

} // verus!
