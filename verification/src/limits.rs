//! Fixed limits and defaults of the client.

use vstd::prelude::*;

verus! {

/// Longest prompt, in characters, that the client accepts.
pub const MAX_PROMPT_LENGTH: usize = 32000;

/// Seconds after which a request is given up.
pub const REQUEST_TIMEOUT_SECS: u64 = 30;

} // verus!
