//! What the bot is configured with.

use vstd::prelude::*;

verus! {

/// The credentials that the bot is configured with.
#[derive(Clone, Debug, PartialEq, Eq)]
pub struct Secrets {
    /// The token that the bot logs in with.
    pub bot_token: String,
    /// The address of the webhook that failures are reported to.
    pub webhook_url: String,
}

} // verus!
