//! The two settings of the service.

use vstd::prelude::*;

verus! {

/// The settings the service starts with.
#[derive(Clone, Debug)]
pub struct Config {
    /// The connection string of the external data source, if there is one.
    pub source: Option<String>,
    /// The address and port to listen on.
    pub bind: String,
}

/// The address and port to listen on where none is set.
pub open spec fn default_bind() -> Seq<char> {
    "127.0.0.1:8000"@
}

impl Config {
    /// The settings made of what the environment holds: `source` is kept as
    /// it is, and `bind` falls back to `127.0.0.1:8000`.
    pub fn new(source: Option<String>, bind: Option<String>) -> (out: Config)
        ensures
            out.source == source,
            out.bind@ == (match bind {
                Some(address) => address@,
                None => default_bind(),
            }),
    {
        let bind = match bind {
            Some(address) => address,
            None => "127.0.0.1:8000".to_owned(),
        };
        Config { source, bind }
    }

    /// Whether an external data source is configured. Without one `probe`
    /// is disabled.
    pub fn has_source(&self) -> (out: bool)
        ensures
            out == self.source.is_some(),
    {
        self.source.is_some()
    }
}

} // verus!
