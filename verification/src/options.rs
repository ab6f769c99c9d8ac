//! What a caller chooses: how a new container is provisioned, and how much of
//! a log is asked for.
use vstd::prelude::*;
use crate::DEFAULT_MC_PORT;

verus! {

/// The options of a server, with their texts as sequences of characters.
pub ghost struct OptionsModel {
    pub name: Seq<char>,
    pub volume: Seq<char>,
    pub port: u32,
}

/// How one server is provisioned: its name, the host path of its data volume
/// and the host port it is reached on. Unchangeable once built.
pub struct MCServerOptions {
    volume: String,
    port: u32,
    name: String,
}

impl View for MCServerOptions {
    type V = OptionsModel;

    closed spec fn view(&self) -> OptionsModel {
        OptionsModel { name: self.name@, volume: self.volume@, port: self.port }
    }
}

impl MCServerOptions {
    /// The name given to the server.
    pub fn name(&self) -> (r: &String)
        ensures
            r@ == self@.name,
    {
        &self.name
    }

    /// The host path mounted as the workload's data directory.
    pub fn volume(&self) -> (r: &String)
        ensures
            r@ == self@.volume,
    {
        &self.volume
    }

    /// The host port the workload is published on.
    pub fn port(&self) -> (r: u32)
        ensures
            r == self@.port,
    {
        self.port
    }
}

/// Collects the options of a server. Nothing is validated here: whether
/// the path exists and the port is free is for the engine to say.
pub struct MCServerOptionsBuilder {
    name: String,
    port: u32,
    volume: String,
}

impl View for MCServerOptionsBuilder {
    type V = OptionsModel;

    closed spec fn view(&self) -> OptionsModel {
        OptionsModel { name: self.name@, volume: self.volume@, port: self.port }
    }
}

impl MCServerOptionsBuilder {
    /// A builder for the server `name` with its data at `volume`, on the
    /// default port.
    pub fn new(name: String, volume: String) -> (r: Self)
        ensures
            r@ == (OptionsModel { name: name@, volume: volume@, port: DEFAULT_MC_PORT }),
    {
        MCServerOptionsBuilder { name, volume, port: DEFAULT_MC_PORT }
    }

    /// The same builder with the host port replaced.
    pub fn port(self, port: u32) -> (r: Self)
        ensures
            r@ == (OptionsModel { port: port, ..self@ }),
    {
        let mut next = self;
        next.port = port;
        next
    }

    /// The options collected so far.
    pub fn build(self) -> (r: MCServerOptions)
        ensures
            r@ == self@,
    {
        MCServerOptions { volume: self.volume, port: self.port, name: self.name }
    }
}

/// How much of a container's log is asked for.
pub struct MCServerLogOptions {
    limit: String,
}

impl View for MCServerLogOptions {
    type V = Seq<char>;

    /// The number of trailing entries asked for, as text.
    closed spec fn view(&self) -> Seq<char> {
        self.limit@
    }
}

impl Default for MCServerLogOptions {
    /// The last twenty entries.
    fn default() -> (r: Self)
        ensures
            r@ == "20"@,
    {
        MCServerLogOptions { limit: String::from_str("20") }
    }
}

impl MCServerLogOptions {
    /// The number of trailing entries asked for, as text.
    pub fn limit(&self) -> (r: &String)
        ensures
            r@ == self@,
    {
        &self.limit
    }
}

} // verus!
