use vstd::prelude::*;

verus! {

/// The immutable server configuration: the filesystem path of the one file
/// that every request is served. Created once at startup and never mutated.
pub struct ServerConfig {
    pub path: String,
}

impl View for ServerConfig {
    type V = Seq<char>;

    open spec fn view(&self) -> Seq<char> {
        self.path@
    }
}

impl ServerConfig {
    /// Build the configuration from the path resolved at startup.
    pub fn new(path: String) -> (cfg: ServerConfig)
        ensures
            cfg@ == path@,
    {
        ServerConfig { path }
    }
}

} // verus!
