//! The error taxonomy of the lifecycle operations.
use vstd::prelude::*;
use crate::command::{CommandModel, MCServerCommands};
use crate::text::join2;

verus! {

/// Why a lifecycle operation failed. Every member but the first carries the
/// id of the container it was about.
#[derive(Debug, PartialEq, Eq)]
pub enum MCError {
    /// The engine rejected the creation; no container id exists yet.
    FailedToCreateContainer,
    /// The engine rejected the start call itself.
    FailedToStartContainer(String),
    /// The state could not be read back after a start.
    FailedToInspectContainer(String),
    /// The stop call failed.
    FailedToStopContainer(String),
    /// Attaching, writing or flushing failed; the command is kept.
    FailedToRunCommand(String, MCServerCommands),
    /// The forced removal failed.
    FailedToRMContainer(String),
    /// The start was accepted, but the state read back reports a fault: the
    /// container id and the engine's message, verbatim.
    ContainerError(String, String),
}

/// An error, with its texts as sequences of characters.
pub ghost enum ErrorModel {
    FailedToCreateContainer,
    FailedToStartContainer(Seq<char>),
    FailedToInspectContainer(Seq<char>),
    FailedToStopContainer(Seq<char>),
    FailedToRunCommand(Seq<char>, CommandModel),
    FailedToRMContainer(Seq<char>),
    ContainerError(Seq<char>, Seq<char>),
}

impl View for MCError {
    type V = ErrorModel;

    open spec fn view(&self) -> ErrorModel {
        match self {
            MCError::FailedToCreateContainer => ErrorModel::FailedToCreateContainer,
            MCError::FailedToStartContainer(id) => ErrorModel::FailedToStartContainer(id@),
            MCError::FailedToInspectContainer(id) => ErrorModel::FailedToInspectContainer(id@),
            MCError::FailedToStopContainer(id) => ErrorModel::FailedToStopContainer(id@),
            MCError::FailedToRunCommand(id, command) => ErrorModel::FailedToRunCommand(
                id@,
                command@,
            ),
            MCError::FailedToRMContainer(id) => ErrorModel::FailedToRMContainer(id@),
            MCError::ContainerError(id, message) => ErrorModel::ContainerError(id@, message@),
        }
    }
}

impl ErrorModel {
    /// The container the error is about, if it names one.
    pub open spec fn container_id(self) -> Option<Seq<char>> {
        match self {
            ErrorModel::FailedToCreateContainer => None,
            ErrorModel::FailedToStartContainer(id) => Some(id),
            ErrorModel::FailedToInspectContainer(id) => Some(id),
            ErrorModel::FailedToStopContainer(id) => Some(id),
            ErrorModel::FailedToRunCommand(id, _) => Some(id),
            ErrorModel::FailedToRMContainer(id) => Some(id),
            ErrorModel::ContainerError(id, _) => Some(id),
        }
    }

    /// The message shown to the user.
    pub open spec fn message(self) -> Seq<char> {
        match self {
            ErrorModel::FailedToCreateContainer => "failed to create container"@,
            ErrorModel::FailedToStartContainer(id) => "failed to start container "@ + id,
            ErrorModel::FailedToInspectContainer(id) => "failed to inspect container "@ + id,
            ErrorModel::FailedToStopContainer(id) => "failed to stop container "@ + id,
            ErrorModel::FailedToRunCommand(id, command) => "failed to run command "@
                + command.diagnostic_text() + " on container "@ + id,
            ErrorModel::FailedToRMContainer(id) => "failed to rm container "@ + id,
            ErrorModel::ContainerError(_, message) => message,
        }
    }
}

impl MCError {
    /// The message shown to the user: what failed and on which container, or,
    /// for a fault the engine reported, the engine's own message.
    pub fn to_string(&self) -> (r: String)
        ensures
            r@ == self@.message(),
    {
        match self {
            MCError::FailedToCreateContainer => String::from_str("failed to create container"),
            MCError::FailedToStartContainer(id) => join2("failed to start container ", id.as_str()),
            MCError::FailedToInspectContainer(id) => join2(
                "failed to inspect container ",
                id.as_str(),
            ),
            MCError::FailedToStopContainer(id) => join2("failed to stop container ", id.as_str()),
            MCError::FailedToRunCommand(id, command) => {
                let shown = command.diagnostic();
                let mut out = join2("failed to run command ", shown.as_str());
                out.append(" on container ");
                out.append(id.as_str());
                out
            },
            MCError::FailedToRMContainer(id) => join2("failed to rm container ", id.as_str()),
            MCError::ContainerError(_, message) => message.clone(),
        }
    }

    /// The id of the container the error is about, if it names one.
    pub fn container_id(&self) -> (r: Option<&String>)
        ensures
            match r {
                Some(id) => self@.container_id() == Some(id@),
                None => self@.container_id() is None,
            },
    {
        match self {
            MCError::FailedToCreateContainer => None,
            MCError::FailedToStartContainer(id) => Some(id),
            MCError::FailedToInspectContainer(id) => Some(id),
            MCError::FailedToStopContainer(id) => Some(id),
            MCError::FailedToRunCommand(id, _) => Some(id),
            MCError::FailedToRMContainer(id) => Some(id),
            MCError::ContainerError(id, _) => Some(id),
        }
    }
}

} // verus!
