//! Options of the tokenless longpoll consumer.

use vstd::prelude::*;

verus! {

/// Per-iteration knobs of a tokenless longpoll subscription.
#[derive(Debug, Clone)]
pub struct LongpollIterateOptions {
    /// Cursor returned by the server on the previous tick.
    pub since_time: Option<i64>,
    /// Server-side long-poll wait in seconds (capped server-side).
    pub timeout: i64,
}

impl Default for LongpollIterateOptions {
    /// No cursor and a 50-second wait.
    fn default() -> (r: Self)
        ensures
            r.since_time is None,
            r.timeout == 50,
    {
        LongpollIterateOptions { since_time: None, timeout: 50 }
    }
}

} // verus!
