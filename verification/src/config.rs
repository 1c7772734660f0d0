//! Client configuration: the credential the dispatch client authenticates
//! with.  Reading it from the environment or a file, and writing it back,
//! are the surrounding application's concern; the library only carries the
//! value.

use vstd::prelude::*;

verus! {

/// The configuration of the client: its API credential.
#[derive(Clone, Debug)]
pub struct Config {
    /// The credential sent as a bearer token on every call.
    pub api_key: String,
}

} // verus!
