//! How the game runs: as a client of a remote server, as a server alone, or as both at once.

use vstd::prelude::*;

verus! {

#[derive(Clone, Copy, Debug, PartialEq, Eq, Structural)]
pub enum SimulationMode {
    ClientOnly,
    ServerOnly,
    ClientAndServer,
}

/// The mode that the command-line flags ask for; asking for both `client` and `server` asks
/// for none.
pub open spec fn mode_for(client_only: bool, server_only: bool) -> Option<SimulationMode> {
    if client_only && server_only {
        None
    } else if client_only {
        Some(SimulationMode::ClientOnly)
    } else if server_only {
        Some(SimulationMode::ServerOnly)
    } else {
        Some(SimulationMode::ClientAndServer)
    }
}

/// Whether one of the arguments is exactly `flag`.
pub open spec fn has_argument(args: Seq<String>, flag: Seq<char>) -> bool {
    exists|i: int| 0 <= i < args.len() && (#[trigger] args[i])@ == flag
}

/// Whether one of the arguments is exactly `flag`.
fn contains_argument(args: &Vec<String>, flag: &String) -> (found: bool)
    ensures
        found == has_argument(args@, flag@),
{
    let mut i: usize = 0;
    while i < args.len()
        invariant
            0 <= i <= args@.len(),
            forall|k: int| 0 <= k < i ==> (#[trigger] args@[k])@ != flag@,
        decreases args@.len() - i,
    {
        if args[i] == *flag {
            return true;
        }
        i = i + 1;
    }
    false
}

/// The mode that the command-line arguments ask for: `client` alone runs only a client,
/// `server` alone only a server, neither runs both locally. Both together are refused with
/// `None`.
pub fn requested_mode(args: &Vec<String>) -> (mode: Option<SimulationMode>)
    ensures
        mode == mode_for(has_argument(args@, "client"@), has_argument(args@, "server"@)),
{
    let client_only = contains_argument(args, &"client".to_owned());
    let server_only = contains_argument(args, &"server".to_owned());
    if client_only && server_only {
        None
    } else if client_only {
        Some(SimulationMode::ClientOnly)
    } else if server_only {
        Some(SimulationMode::ServerOnly)
    } else {
        Some(SimulationMode::ClientAndServer)
    }
}

} // verus!
