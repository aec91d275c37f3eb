//! The session loop's decisions: which lines are skipped, which methods
//! are lifecycle notifications, how a read error is handled, and how the
//! initial connection is retried.
//!
//! The loop itself — reading lines, writing responses — is transport work
//! and lives outside the library; it asks these functions what to do.

use crate::gate::{is_sql_ws, lemma_skip_ws_prefix, skip_ws};
use vstd::prelude::*;
use vstd::std_specs::iter::IteratorSpec;
use vstd::string::*;

verus! {

/// How many times the initial connection is attempted.
pub const MAX_CONNECT_ATTEMPTS: u64 = 5;

/// The fixed delay between connection attempts, in milliseconds.
pub const CONNECT_RETRY_DELAY_MS: u64 = 1000;

/// The connection pool's cap.
pub const POOL_MAX_CONNECTIONS: u32 = 5;

/// The pause after a transient read error, in milliseconds.
pub const READ_ERROR_PAUSE_MS: u64 = 100;

/// What to do after one more connection attempt has failed.
pub enum RetryDecision {
    /// Sleep this long, then try again.
    Retry { delay_ms: u64 },
    /// Give up and report the last error.
    GiveUp,
}

/// Decides, after `failures` attempts have failed, whether to try again.
///
/// The connection is attempted up to five times, a fixed second apart;
/// after the fifth failure the last error propagates. This is the only
/// retried operation in the system.
pub fn connect_retry_decision(failures: u64) -> (r: RetryDecision)
    ensures
        failures < MAX_CONNECT_ATTEMPTS ==> (r matches RetryDecision::Retry { delay_ms }
            && delay_ms == CONNECT_RETRY_DELAY_MS),
        failures >= MAX_CONNECT_ATTEMPTS ==> r is GiveUp,
{
    if failures >= MAX_CONNECT_ATTEMPTS {
        RetryDecision::GiveUp
    } else {
        RetryDecision::Retry { delay_ms: CONNECT_RETRY_DELAY_MS }
    }
}

/// What to do when reading the next line failed.
pub enum ReadErrorAction {
    /// The stream is gone; shut the session down cleanly.
    Shutdown,
    /// Log, pause this long, and keep reading.
    PauseAndContinue { delay_ms: u64 },
}

/// Decides how to handle a line-read error: an end-of-stream error ends
/// the session cleanly, anything else is logged and the loop continues
/// after a short pause.
pub fn read_error_action(unexpected_eof: bool) -> (r: ReadErrorAction)
    ensures
        unexpected_eof ==> r is Shutdown,
        !unexpected_eof ==> (r matches ReadErrorAction::PauseAndContinue { delay_ms } && delay_ms
            == READ_ERROR_PAUSE_MS),
{
    if unexpected_eof {
        ReadErrorAction::Shutdown
    } else {
        ReadErrorAction::PauseAndContinue { delay_ms: READ_ERROR_PAUSE_MS }
    }
}

/// The lifecycle notification methods: the loop consumes them without a
/// response.
pub fn is_lifecycle_notification(method: &str) -> (r: bool)
    ensures
        r == (method@ == "notifications/initialized"@ || method@ == "initialized"@),
{
    crate::strutil::str_eq(method, "notifications/initialized") || crate::strutil::str_eq(
        method,
        "initialized",
    )
}

/// A line of only whitespace carries no message and is skipped.
pub fn is_blank_line(line: &str) -> (r: bool)
    ensures
        r == (skip_ws(line@).len() == 0),
{
    let ghost lv = line@;
    let mut it = line.chars();
    proof {
        assert(spec_iter(line).remaining() == lv);
    }
    let mut blank = true;
    let ghost mut i: int = 0;
    loop
        invariant_except_break
            0 <= i <= lv.len(),
            it.remaining() == lv.skip(i),
            forall|j: int| 0 <= j < i ==> is_sql_ws(#[trigger] lv[j]),
            blank,
        ensures
            0 <= i <= lv.len(),
            forall|j: int| 0 <= j < i ==> is_sql_ws(#[trigger] lv[j]),
            blank ==> i == lv.len(),
            !blank ==> i < lv.len() && !is_sql_ws(lv[i]),
        decreases lv.len() - i,
    {
        match it.next() {
            None => {
                assert(lv.skip(i).len() == 0);
                break ;
            },
            Some(c) => {
                assert(lv.skip(i).len() > 0);
                assert(c == lv.skip(i)[0]);
                assert(lv.skip(i)[0] == lv[i]);
                let ws = c == ' ' || c == '\t' || c == '\r' || c == '\n';
                proof {
                    assert(lv.skip(i).drop_first() =~= lv.skip(i + 1));
                }
                if !ws {
                    blank = false;
                    break ;
                }
                proof {
                    i = i + 1;
                }
            },
        }
    }
    proof {
        lemma_skip_ws_prefix(lv, i);
        if blank {
            assert(lv.skip(i).len() == 0);
        } else {
            assert(skip_ws(lv.skip(i)) == lv.skip(i));
            assert(skip_ws(lv).len() == lv.len() - i);
        }
    }
    blank
}

} // verus!
