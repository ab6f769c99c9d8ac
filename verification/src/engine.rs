//! The container engine, as the library sees it: the calls it is handed and
//! the answers it gives, all as plain values. Whoever owns the connection
//! turns a call into a round trip and the response into a reply.
use vstd::prelude::*;

verus! {

/// One TCP port of the container, published on the host.
#[derive(Clone, Copy, Debug, PartialEq, Eq, Structural)]
pub struct PortMapping {
    /// The port on the host.
    pub host_port: u32,
    /// The port inside the container.
    pub container_port: u32,
}

/// The payload of a create call.
#[derive(Debug, PartialEq, Eq)]
pub struct ContainerRequest {
    /// The image the container runs.
    pub image: String,
    /// Environment variables, each as `NAME=value`.
    pub env: Vec<String>,
    /// Bind mounts, each as `host path:container path`.
    pub binds: Vec<String>,
    /// Whether standard input is kept open and attached.
    pub attach_stdin: bool,
    /// The TCP ports published on the host.
    pub ports: Vec<PortMapping>,
}

/// A create payload, with its texts as sequences of characters.
pub ghost struct RequestModel {
    pub image: Seq<char>,
    pub env: Seq<Seq<char>>,
    pub binds: Seq<Seq<char>>,
    pub attach_stdin: bool,
    pub ports: Seq<PortMapping>,
}

impl View for ContainerRequest {
    type V = RequestModel;

    open spec fn view(&self) -> RequestModel {
        RequestModel {
            image: self.image@,
            env: self.env.deep_view(),
            binds: self.binds.deep_view(),
            attach_stdin: self.attach_stdin,
            ports: self.ports@,
        }
    }
}

/// One call to the engine.
#[derive(Debug, PartialEq, Eq)]
pub enum EngineCall {
    /// Create a container from the payload.
    Create(ContainerRequest),
    /// Start the container.
    Start { id: String },
    /// Read the container's state.
    Inspect { id: String },
    /// Stop the container; `wait` is the grace period in seconds, the
    /// engine's own where there is none.
    Stop { id: String, wait: Option<u64> },
    /// Attach to the container's input stream, write `input`, flush and
    /// detach.
    Attach { id: String, input: Vec<u8> },
    /// Read the last `tail` entries of the chosen output streams.
    Logs { id: String, stdout: bool, stderr: bool, tail: String },
    /// Remove the container; with `force`, also while it runs.
    Remove { id: String, force: bool },
}

/// A call, with its texts as sequences of characters.
pub ghost enum CallModel {
    Create(RequestModel),
    Start { id: Seq<char> },
    Inspect { id: Seq<char> },
    Stop { id: Seq<char>, wait: Option<u64> },
    Attach { id: Seq<char>, input: Seq<u8> },
    Logs { id: Seq<char>, stdout: bool, stderr: bool, tail: Seq<char> },
    Remove { id: Seq<char>, force: bool },
}

impl CallModel {
    /// The container the call is about; a create call is about none yet.
    pub open spec fn container(self) -> Option<Seq<char>> {
        match self {
            CallModel::Create(_) => None,
            CallModel::Start { id } => Some(id),
            CallModel::Inspect { id } => Some(id),
            CallModel::Stop { id, .. } => Some(id),
            CallModel::Attach { id, .. } => Some(id),
            CallModel::Logs { id, .. } => Some(id),
            CallModel::Remove { id, .. } => Some(id),
        }
    }
}

impl View for EngineCall {
    type V = CallModel;

    open spec fn view(&self) -> CallModel {
        match self {
            EngineCall::Create(request) => CallModel::Create(request@),
            EngineCall::Start { id } => CallModel::Start { id: id@ },
            EngineCall::Inspect { id } => CallModel::Inspect { id: id@ },
            EngineCall::Stop { id, wait } => CallModel::Stop { id: id@, wait: *wait },
            EngineCall::Attach { id, input } => CallModel::Attach { id: id@, input: input@ },
            EngineCall::Logs { id, stdout, stderr, tail } => CallModel::Logs {
                id: id@,
                stdout: *stdout,
                stderr: *stderr,
                tail: tail@,
            },
            EngineCall::Remove { id, force } => CallModel::Remove { id: id@, force: *force },
        }
    }
}

/// Why the engine did not do what it was asked.
#[derive(Debug, PartialEq, Eq)]
pub struct EngineFault {
    /// The status the engine answered with; `None` where the call failed
    /// before any status came back.
    pub code: Option<u16>,
    /// The engine's or the transport's message.
    pub message: String,
}

/// What the engine answered.
#[derive(Debug, PartialEq, Eq)]
pub enum EngineReply {
    /// A container was created: its id, and the engine's warnings.
    Created { id: String, warnings: Option<Vec<String>> },
    /// The call was carried out; there is nothing to report.
    Accepted,
    /// The container's state: the engine's error text, empty where the
    /// container is sound.
    State { error: String },
    /// The log entries asked for, oldest first, as raw bytes.
    Output(Vec<Vec<u8>>),
    /// The call failed.
    Fault(EngineFault),
}

/// A reply, with its texts as sequences of characters.
pub ghost enum ReplyModel {
    Created { id: Seq<char>, warnings: Option<Seq<Seq<char>>> },
    Accepted,
    State { error: Seq<char> },
    Output(Seq<Seq<u8>>),
    Fault { code: Option<u16>, message: Seq<char> },
}

impl EngineReply {
    /// The fault that the reply reports: every fault, whatever its status and
    /// whichever call it answers, and nothing for any other reply. It is what
    /// a log is given before the reply becomes an error of the service, so
    /// that no detail is lost.
    pub fn fault(&self) -> (r: Option<&EngineFault>)
        ensures
            match r {
                Some(fault) => *self == EngineReply::Fault(*fault),
                None => !(self@ is Fault),
            },
    {
        match self {
            EngineReply::Fault(fault) => Some(fault),
            _ => None,
        }
    }
}

impl View for EngineReply {
    type V = ReplyModel;

    open spec fn view(&self) -> ReplyModel {
        match self {
            EngineReply::Created { id, warnings } => ReplyModel::Created {
                id: id@,
                warnings: warnings.deep_view(),
            },
            EngineReply::Accepted => ReplyModel::Accepted,
            EngineReply::State { error } => ReplyModel::State { error: error@ },
            EngineReply::Output(entries) => ReplyModel::Output(entries.deep_view()),
            EngineReply::Fault(fault) => ReplyModel::Fault {
                code: fault.code,
                message: fault.message@,
            },
        }
    }
}

} // verus!
