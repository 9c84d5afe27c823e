use vstd::prelude::*;

verus! {

/// The role a server plays, chosen when it starts.
#[derive(Clone, Copy, Debug, PartialEq, Eq, PartialOrd, Ord, Structural)]
pub enum ServerType {
    /// Register the Server as a Distributor, distributing tasks
    DISTRIBUTOR,
    /// Register the Server as a Worker, executing tasks
    WORKER,
}

/// The command line of a server: its role, the port it listens on (at least
/// 1), and, for a worker, the address of the distributor it registers with.
#[derive(Clone, Debug)]
pub struct Argument {
    pub server_type: ServerType,
    pub port: u16,
    pub distributor_ip: Option<String>,
}

} // verus!
