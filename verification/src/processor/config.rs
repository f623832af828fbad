//! The processor's configuration.

use vstd::prelude::*;

verus! {

/// Where the processor relays batches to.
#[derive(Debug, Clone, PartialEq, Eq)]
pub struct Config {
    pub storage_service_url: String,
}

/// The storage address that is used where none is configured.
pub open spec fn default_storage_url() -> Seq<char> {
    "http://localhost:5000/logs"@
}

impl Config {
    /// The configuration for a configured storage address, or for the default
    /// address where none is configured.
    pub fn new(storage_service_url: Option<String>) -> (r: Config)
        ensures
            r.storage_service_url@ == match storage_service_url {
                Some(url) => url@,
                None => default_storage_url(),
            },
    {
        match storage_service_url {
            Some(url) => Config { storage_service_url: url },
            None => Config { storage_service_url: "http://localhost:5000/logs".to_owned() },
        }
    }
}

} // verus!
