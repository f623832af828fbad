//! The collector's configuration.

use vstd::prelude::*;
use crate::codec::{codec_named, Codec};

verus! {

/// Where the collector forwards batches to, and with which codec.
#[derive(Debug, Clone, PartialEq, Eq)]
pub struct Config {
    pub processor_url: String,
    pub codec: Codec,
}

/// The processor address that is used where none is configured.
pub open spec fn default_processor_url() -> Seq<char> {
    "http://localhost:4000/logs"@
}

/// The codec that is used where none is configured.
pub open spec fn default_codec() -> Codec {
    Codec::Lz4
}

impl Config {
    /// The configuration for what is configured: the given address, or the
    /// default address where none is given; the codec of the given name, or
    /// the default codec where no name is given or the name is that of no
    /// codec.
    pub fn new(processor_url: Option<String>, codec: Option<&str>) -> (r: Config)
        ensures
            r.processor_url@ == match processor_url {
                Some(url) => url@,
                None => default_processor_url(),
            },
            r.codec == match codec {
                Some(name) => match codec_named(name@) {
                    Some(codec) => codec,
                    None => default_codec(),
                },
                None => default_codec(),
            },
    {
        let processor_url = match processor_url {
            Some(url) => url,
            None => "http://localhost:4000/logs".to_owned(),
        };
        let named = match codec {
            Some(name) => Codec::from_name(name),
            None => None,
        };
        let codec = match named {
            Some(codec) => codec,
            None => Codec::Lz4,
        };
        Config { processor_url, codec }
    }
}

} // verus!
