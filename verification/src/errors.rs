//! Errors of the light nodes, of the server protocol and of the MQTT bridge.
use vstd::prelude::*;

verus! {

/// `std::io::Error`, carried by the `IO` variants.
#[verifier::external_type_specification]
#[verifier::external_body]
pub struct ExIoError(std::io::Error);

/// Errors of the light nodes.
#[derive(Debug)]
pub enum GvmNodeError {
    NodesNotFound,
    StateRetrievalFailed,
    IO(std::io::Error),
}

impl GvmNodeError {
    /// A short description of the error.
    pub fn description(&self) -> (res: &'static str)
        ensures
            res@ == match self {
                GvmNodeError::NodesNotFound => "no known nodes"@,
                GvmNodeError::StateRetrievalFailed => "failed to retrieve states from gvm nodes"@,
                GvmNodeError::IO(_) => "IO error"@,
            },
    {
        match self {
            GvmNodeError::NodesNotFound => "no known nodes",
            GvmNodeError::StateRetrievalFailed => "failed to retrieve states from gvm nodes",
            GvmNodeError::IO(_) => "IO error",
        }
    }
}

impl From<std::io::Error> for GvmNodeError {
    fn from(err: std::io::Error) -> (res: GvmNodeError) {
        GvmNodeError::IO(err)
    }
}

impl vstd::std_specs::convert::FromSpecImpl<std::io::Error> for GvmNodeError {
    open spec fn obeys_from_spec() -> bool {
        true
    }

    open spec fn from_spec(err: std::io::Error) -> GvmNodeError {
        GvmNodeError::IO(err)
    }
}

/// Errors of the server protocol.
#[derive(Debug)]
pub enum GvmServerError {
    EndOfStream,
    ParsingError,
    NodesNotFound,
    IO(std::io::Error),
}

impl GvmServerError {
    /// The message the error is displayed with.
    pub fn description(&self) -> (res: &'static str)
        ensures
            res@ == match self {
                GvmServerError::EndOfStream => "protocol error"@,
                GvmServerError::ParsingError => "de-/serializing failed"@,
                GvmServerError::NodesNotFound => "no gvm light devices found"@,
                GvmServerError::IO(_) => "IO error"@,
            },
    {
        match self {
            GvmServerError::EndOfStream => "protocol error",
            GvmServerError::ParsingError => "de-/serializing failed",
            GvmServerError::NodesNotFound => "no gvm light devices found",
            GvmServerError::IO(_) => "IO error",
        }
    }
}

impl From<std::io::Error> for GvmServerError {
    fn from(err: std::io::Error) -> (res: GvmServerError) {
        GvmServerError::IO(err)
    }
}

impl vstd::std_specs::convert::FromSpecImpl<std::io::Error> for GvmServerError {
    open spec fn obeys_from_spec() -> bool {
        true
    }

    open spec fn from_spec(err: std::io::Error) -> GvmServerError {
        GvmServerError::IO(err)
    }
}

/// Errors of the MQTT bridge.
#[derive(Debug)]
pub enum MqttError {
    InvalidTopic,
    InvalidPayload,
    UnavailableNodeStatus,
    IO(std::io::Error),
}

impl MqttError {
    /// The message the error is displayed with.
    pub fn description(&self) -> (res: &'static str)
        ensures
            res@ == match self {
                MqttError::InvalidTopic => "invalid topic"@,
                MqttError::InvalidPayload => "invalid payload"@,
                MqttError::UnavailableNodeStatus => "unavailable node status"@,
                MqttError::IO(_) => "IO error"@,
            },
    {
        match self {
            MqttError::InvalidTopic => "invalid topic",
            MqttError::InvalidPayload => "invalid payload",
            MqttError::UnavailableNodeStatus => "unavailable node status",
            MqttError::IO(_) => "IO error",
        }
    }
}

impl From<std::io::Error> for MqttError {
    fn from(err: std::io::Error) -> (res: MqttError) {
        MqttError::IO(err)
    }
}

impl vstd::std_specs::convert::FromSpecImpl<std::io::Error> for MqttError {
    open spec fn obeys_from_spec() -> bool {
        true
    }

    open spec fn from_spec(err: std::io::Error) -> MqttError {
        MqttError::IO(err)
    }
}

} // verus!
