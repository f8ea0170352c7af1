//! Frames exchanged between a client and the light server.
use vstd::prelude::*;
use crate::node_command::GvmNodeCommand;
use crate::node_status::GvmNodeStatus;

verus! {

/// One frame of the client/server protocol.
#[derive(PartialEq, Eq, Structural, Clone, Copy, Debug)]
pub enum GvmServerEvent {
    /// A client asks how many lights the server drives.
    GetNodeCount,
    /// The server answers with the number of lights.
    NodeCount(u8),
    /// A client asks for the status of the light with this id.
    GetNodeStatus(u8),
    /// The server answers with the status of the light with this id.
    NodeStatus(u8, GvmNodeStatus),
    /// A client has the light with this id perform a command.
    NodeCommand(u8, GvmNodeCommand),
}

} // verus!
