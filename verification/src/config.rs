//! Process configuration supplied by the environment around the core.
use vstd::prelude::*;

verus! {

/// The deployment's configuration record: the secret key the surrounding
/// process uses to sign its own state (the core never reads it).
pub struct Config {
    pub secret_key: String,
}

} // verus!
