//! Start-up of the transcription runtime's HTTP server: where it listens and
//! how often binding the port is tried.

use vstd::prelude::*;
use vstd::string::*;

verus! {

/// What the request handlers share: where models are kept and which
/// `whisper-cli` binary to run.
pub struct AppState {
    pub models_dir: String,
    pub whisper_binary: String,
}

/// The address the runtime listens on.
pub const LISTEN_ADDR: &'static str = "127.0.0.1:15000";

/// How many times binding the port is tried.
pub const BIND_ATTEMPTS: u32 = 5;

/// The pause between two tries, in milliseconds.
pub const BIND_RETRY_DELAY_MS: u64 = 500;

/// What follows a failed try to bind the port.
#[derive(PartialEq, Eq, Structural, Clone, Copy, Debug)]
pub enum BindRetry {
    /// Wait this many milliseconds, then try again.
    WaitAndRetry(u64),
    /// Give up: the server does not start.
    GiveUp,
}

/// Whether another try follows the failure of try number `attempt`.
pub open spec fn retries_after(attempt: nat) -> bool {
    attempt < BIND_ATTEMPTS
}

/// Decides what follows the failure of try number `attempt` (counted from 1):
/// every try but the last is followed by a pause and another try.
pub fn after_bind_failure(attempt: u32) -> (r: BindRetry)
    requires
        1 <= attempt <= BIND_ATTEMPTS,
    ensures
        retries_after(attempt as nat) ==> r == BindRetry::WaitAndRetry(BIND_RETRY_DELAY_MS),
        !retries_after(attempt as nat) ==> r == BindRetry::GiveUp,
{
    if attempt < BIND_ATTEMPTS {
        BindRetry::WaitAndRetry(BIND_RETRY_DELAY_MS)
    } else {
        BindRetry::GiveUp
    }
}

/// The number of tries made from try `attempt` on when every one fails,
/// following `after_bind_failure`.
pub open spec fn tries_until_give_up(attempt: nat) -> nat
    decreases BIND_ATTEMPTS - attempt,
{
    if retries_after(attempt) {
        1 + tries_until_give_up(attempt + 1)
    } else {
        1
    }
}

proof fn lemma_tries_from(attempt: nat)
    requires
        1 <= attempt <= BIND_ATTEMPTS,
    ensures
        tries_until_give_up(attempt) == BIND_ATTEMPTS - attempt + 1,
    decreases BIND_ATTEMPTS - attempt,
{
    if attempt < BIND_ATTEMPTS {
        lemma_tries_from(attempt + 1);
    }
}

/// When binding keeps failing, the port is tried exactly `BIND_ATTEMPTS`
/// times before the server gives up.
pub proof fn lemma_bind_tries()
    ensures
        tries_until_give_up(1) == BIND_ATTEMPTS,
{
    lemma_tries_from(1);
}

} // verus!
