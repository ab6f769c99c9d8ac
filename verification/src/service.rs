//! The lifecycle service: what is asked of the engine for each operation, in
//! which order, and what each answer means for the caller.
use vstd::prelude::*;
use crate::DEFAULT_MC_PORT;
use crate::engine::{
    CallModel, ContainerRequest, EngineCall, EngineReply, PortMapping, ReplyModel, RequestModel,
};
use crate::command::{CommandModel, MCServerCommands};
use crate::error::{ErrorModel, MCError};
use crate::options::{MCServerLogOptions, MCServerOptions, OptionsModel};
use crate::text::{join2, read_text, text_of};
use vstd::utf8::encode_utf8;

verus! {

/// A container known to the engine, by the id the engine gave it.
#[derive(Debug, PartialEq, Eq)]
pub struct MCContainer {
    pub id: String,
}

impl View for MCContainer {
    type V = Seq<char>;

    /// The container's id.
    open spec fn view(&self) -> Seq<char> {
        self.id@
    }
}

/// Whether the engine takes `call`. Nothing is asked of what it answers.
pub open spec fn takes<E: Fn(EngineCall) -> EngineReply>(engine: E, call: CallModel) -> bool {
    forall|c: EngineCall| c@ == call ==> #[trigger] call_requires(engine, (c,))
}

/// Whether the engine takes every call.
pub open spec fn always_answers<E: Fn(EngineCall) -> EngineReply>(engine: E) -> bool {
    forall|call: CallModel| takes(engine, call)
}

/// Whether `reply` is an answer that the engine may give to `call`.
pub open spec fn answers<E: Fn(EngineCall) -> EngineReply>(
    engine: E,
    call: CallModel,
    reply: ReplyModel,
) -> bool {
    exists|c: EngineCall, a: EngineReply|
        c@ == call && a@ == reply && #[trigger] call_ensures(engine, (c,), a)
}

/// A result over a handle, by the handle's id and the error's model.
pub open spec fn handle_model(r: Result<MCContainer, MCError>) -> Result<Seq<char>, ErrorModel> {
    match r {
        Ok(container) => Ok(container@),
        Err(e) => Err(e@),
    }
}

/// A result without a value, by the error's model.
pub open spec fn done_model(r: Result<(), MCError>) -> Result<(), ErrorModel> {
    match r {
        Ok(_) => Ok(()),
        Err(e) => Err(e@),
    }
}

/// The payload that creates a container for `options` from `image`: the
/// licence accepted through the environment, the data volume mounted at
/// `/data`, standard input attached, and the workload's port published on the
/// chosen host port.
pub open spec fn create_payload(image: Seq<char>, options: OptionsModel) -> RequestModel {
    RequestModel {
        image,
        env: seq!["EULA=TRUE"@],
        binds: seq![options.volume + ":/data"@],
        attach_stdin: true,
        ports: seq![
            PortMapping { host_port: options.port, container_port: DEFAULT_MC_PORT },
        ],
    }
}

/// The handle that stands for the container with the given id: the id
/// itself, unchanged.
pub open spec fn handle_for(id: Seq<char>) -> Seq<char> {
    id
}

/// What a create call's answer means: the handle of the new container, by
/// its id, or the one error that creation has.
pub open spec fn created(reply: ReplyModel) -> Result<Seq<char>, ErrorModel> {
    match reply {
        ReplyModel::Created { id, .. } => Ok(id),
        _ => Err(ErrorModel::FailedToCreateContainer),
    }
}

/// Whether creating a container for `options` from `image` can end in
/// `outcome`: the engine gives some answer to the create call, and `outcome`
/// is what that answer means.
pub open spec fn create_ends_in<E: Fn(EngineCall) -> EngineReply>(
    engine: E,
    image: Seq<char>,
    options: OptionsModel,
    outcome: Result<Seq<char>, ErrorModel>,
) -> bool {
    exists|reply: ReplyModel|
        #[trigger] answers(engine, CallModel::Create(create_payload(image, options)), reply)
            && outcome == created(reply)
}

/// Creates containers for the workload.
pub struct MCService {
    image: String,
}

impl MCService {
    /// The image every container of this service runs.
    pub closed spec fn image(&self) -> Seq<char> {
        self.image@
    }

    /// A service for the workload's image.
    pub fn new() -> (r: Self)
        ensures
            r.image() == "itzg/minecraft-server"@,
    {
        MCService { image: String::from_str("itzg/minecraft-server") }
    }

    /// The call that creates a container for `options`.
    pub fn create_call(&self, options: &MCServerOptions) -> (call: EngineCall)
        ensures
            call@ == CallModel::Create(create_payload(self.image(), options@)),
    {
        let mut env: Vec<String> = Vec::new();
        env.push(String::from_str("EULA=TRUE"));
        let mut binds: Vec<String> = Vec::new();
        binds.push(join2(options.volume().as_str(), ":/data"));
        let mut ports: Vec<PortMapping> = Vec::new();
        ports.push(PortMapping { host_port: options.port(), container_port: DEFAULT_MC_PORT });
        let request = ContainerRequest {
            image: self.image.clone(),
            env,
            binds,
            attach_stdin: true,
            ports,
        };
        assert(request.env.deep_view() =~= seq!["EULA=TRUE"@]);
        assert(request.binds.deep_view() =~= seq![options@.volume + ":/data"@]);
        assert(request.ports@ =~= seq![
            PortMapping { host_port: options@.port, container_port: DEFAULT_MC_PORT },
        ]);
        EngineCall::Create(request)
    }

    /// What the engine's answer to a create call means. A created container
    /// gives its handle, whatever the engine warned of; any other answer is
    /// `FailedToCreateContainer`.
    pub fn created(reply: EngineReply) -> (r: Result<MCContainer, MCError>)
        ensures
            handle_model(r) == created(reply@),
    {
        match reply {
            EngineReply::Created { id, warnings: _ } => Ok(Self::get_container(id)),
            _ => Err(MCError::FailedToCreateContainer),
        }
    }

    /// Creates a container for `options`: hands the engine one create call
    /// and gives back what its answer means.
    pub fn create<E: Fn(EngineCall) -> EngineReply>(
        &self,
        options: &MCServerOptions,
        engine: &E,
    ) -> (r: Result<MCContainer, MCError>)
        requires
            takes(*engine, CallModel::Create(create_payload(self.image(), options@))),
        ensures
            create_ends_in(*engine, self.image(), options@, handle_model(r)),
    {
        let call = self.create_call(options);
        let ghost asked = call;
        let reply = engine(call);
        let ghost answer = reply;
        let r = Self::created(reply);
        proof {
            assert(call_ensures(*engine, (asked,), answer));
            assert(answers(*engine, asked@, answer@));
        }
        r
    }

    /// The handle of the container with the given id. Nothing is asked of the
    /// engine: the id may come from an earlier run.
    pub fn get_container(id: String) -> (r: MCContainer)
        ensures
            r@ == handle_for(id@),
    {
        MCContainer { id }
    }
}

/// What a start call's answer means: the call that reads the state back once
/// the engine took the start, the error of a start that it refused.
pub open spec fn started(id: Seq<char>, reply: ReplyModel) -> Result<CallModel, ErrorModel> {
    match reply {
        ReplyModel::Accepted => Ok(CallModel::Inspect { id }),
        _ => Err(ErrorModel::FailedToStartContainer(id)),
    }
}

/// What the state read back after a start means: success where the engine
/// reports no error, the engine's message where it reports one, and a failed
/// inspection where no state came back.
pub open spec fn inspected(id: Seq<char>, reply: ReplyModel) -> Result<(), ErrorModel> {
    match reply {
        ReplyModel::State { error } => if error.len() == 0 {
            Ok(())
        } else {
            Err(ErrorModel::ContainerError(id, error))
        },
        _ => Err(ErrorModel::FailedToInspectContainer(id)),
    }
}

/// What a stop call's answer means.
pub open spec fn stopped(id: Seq<char>, reply: ReplyModel) -> Result<(), ErrorModel> {
    match reply {
        ReplyModel::Accepted => Ok(()),
        _ => Err(ErrorModel::FailedToStopContainer(id)),
    }
}

/// What the answer to writing `command` means.
pub open spec fn commanded(id: Seq<char>, command: CommandModel, reply: ReplyModel) -> Result<
    (),
    ErrorModel,
> {
    match reply {
        ReplyModel::Accepted => Ok(()),
        _ => Err(ErrorModel::FailedToRunCommand(id, command)),
    }
}

/// What a removal's answer means.
pub open spec fn removed(id: Seq<char>, reply: ReplyModel) -> Result<(), ErrorModel> {
    match reply {
        ReplyModel::Accepted => Ok(()),
        _ => Err(ErrorModel::FailedToRMContainer(id)),
    }
}

/// Log entries as text: one line for each entry, in the same order, each
/// read on its own.
pub open spec fn decoded(entries: Seq<Seq<u8>>) -> Seq<Seq<char>> {
    Seq::new(entries.len(), |i: int| text_of(entries[i]))
}

/// What a log call's answer means: the entries as text, or a failure that
/// says nothing more.
pub open spec fn logged(reply: ReplyModel) -> Result<Seq<Seq<char>>, ()> {
    match reply {
        ReplyModel::Output(entries) => Ok(decoded(entries)),
        _ => Err(()),
    }
}

/// A result over log lines, by the lines' texts.
pub open spec fn lines_model(r: Result<Vec<String>, ()>) -> Result<Seq<Seq<char>>, ()> {
    match r {
        Ok(lines) => Ok(lines.deep_view()),
        Err(_) => Err(()),
    }
}

/// Whether the engine takes what a start of the container `id` hands it: the
/// start call, and the inspect call wherever it may accept the start. No
/// other call need be taken, so none is made.
pub open spec fn start_is_taken<E: Fn(EngineCall) -> EngineReply>(engine: E, id: Seq<char>) -> bool {
    &&& takes(engine, CallModel::Start { id })
    &&& forall|first: ReplyModel| #[trigger]
        answers(engine, CallModel::Start { id }, first) && first is Accepted ==> takes(
            engine,
            CallModel::Inspect { id },
        )
}

/// Whether starting the container `id` can end in `outcome`: the engine gives
/// some answer to the start call; where that answer refuses the start,
/// `outcome` is its error and nothing more is asked; where it accepts, the
/// engine gives some answer to the inspect call, and `outcome` is what that
/// state means.
pub open spec fn start_ends_in<E: Fn(EngineCall) -> EngineReply>(
    engine: E,
    id: Seq<char>,
    outcome: Result<(), ErrorModel>,
) -> bool {
    exists|first: ReplyModel|
        #[trigger] answers(engine, CallModel::Start { id }, first) && match started(id, first) {
            Ok(next) => exists|second: ReplyModel|
                #[trigger] answers(engine, next, second) && outcome == inspected(id, second),
            Err(e) => outcome == Err::<(), ErrorModel>(e),
        }
}

/// Whether stopping the container `id` can end in `outcome`.
pub open spec fn stop_ends_in<E: Fn(EngineCall) -> EngineReply>(
    engine: E,
    id: Seq<char>,
    outcome: Result<(), ErrorModel>,
) -> bool {
    exists|reply: ReplyModel|
        #[trigger] answers(engine, CallModel::Stop { id, wait: None }, reply) && outcome
            == stopped(id, reply)
}

/// Whether writing `command` to the console of the container `id` can end in
/// `outcome`.
pub open spec fn command_ends_in<E: Fn(EngineCall) -> EngineReply>(
    engine: E,
    id: Seq<char>,
    command: CommandModel,
    outcome: Result<(), ErrorModel>,
) -> bool {
    exists|reply: ReplyModel|
        #[trigger] answers(
            engine,
            CallModel::Attach { id, input: encode_utf8(command.wire_text()) },
            reply,
        ) && outcome == commanded(id, command, reply)
}

/// Whether reading the last `tail` entries of the log of the container `id`
/// can end in `outcome`.
pub open spec fn logs_end_in<E: Fn(EngineCall) -> EngineReply>(
    engine: E,
    id: Seq<char>,
    tail: Seq<char>,
    outcome: Result<Seq<Seq<char>>, ()>,
) -> bool {
    exists|reply: ReplyModel|
        #[trigger] answers(engine, CallModel::Logs { id, stdout: true, stderr: true, tail }, reply)
            && outcome == logged(reply)
}

/// Whether removing the container `id` can end in `outcome`.
pub open spec fn remove_ends_in<E: Fn(EngineCall) -> EngineReply>(
    engine: E,
    id: Seq<char>,
    outcome: Result<(), ErrorModel>,
) -> bool {
    exists|reply: ReplyModel|
        #[trigger] answers(engine, CallModel::Remove { id, force: true }, reply) && outcome
            == removed(id, reply)
}

/// Operates containers that exist: start, stop, console commands, logs and
/// removal. It keeps nothing between calls; the engine alone knows what state
/// a container is in.
pub struct MCContainerService {}

impl MCContainerService {
    /// A service for existing containers.
    pub fn new() -> (r: Self) {
        MCContainerService {  }
    }

    /// The state of a container. A placeholder: it asks the engine nothing
    /// and always succeeds.
    pub fn status(&self, container: &MCContainer) -> (r: Result<(), ()>)
        ensures
            r is Ok,
    {
        Ok(())
    }

    /// The call that starts `container`.
    pub fn start_call(container: &MCContainer) -> (call: EngineCall)
        ensures
            call@ == (CallModel::Start { id: container@ }),
    {
        EngineCall::Start { id: container.id.clone() }
    }

    /// What the engine's answer to a start call means: the inspect call that
    /// must follow an accepted start, or `FailedToStartContainer`.
    pub fn started(container: &MCContainer, reply: EngineReply) -> (r: Result<EngineCall, MCError>)
        ensures
            match r {
                Ok(next) => started(container@, reply@) == Ok::<CallModel, ErrorModel>(next@),
                Err(e) => started(container@, reply@) == Err::<CallModel, ErrorModel>(e@),
            },
    {
        match reply {
            EngineReply::Accepted => Ok(EngineCall::Inspect { id: container.id.clone() }),
            _ => Err(MCError::FailedToStartContainer(container.id.clone())),
        }
    }

    /// What the state read back after an accepted start means: a container
    /// whose state carries an error has failed to start, whatever the start
    /// call said.
    pub fn inspected(container: &MCContainer, reply: EngineReply) -> (r: Result<(), MCError>)
        ensures
            done_model(r) == inspected(container@, reply@),
    {
        match reply {
            EngineReply::State { error } => {
                if error.as_str().unicode_len() == 0 {
                    Ok(())
                } else {
                    Err(MCError::ContainerError(container.id.clone(), error))
                }
            },
            _ => Err(MCError::FailedToInspectContainer(container.id.clone())),
        }
    }

    /// Starts `container`: hands the engine the start call and, once that is
    /// accepted and not before, the inspect call. The start has succeeded
    /// when the engine took it and the state read back shows no error.
    pub fn start<E: Fn(EngineCall) -> EngineReply>(
        &self,
        container: &MCContainer,
        engine: &E,
    ) -> (r: Result<(), MCError>)
        requires
            start_is_taken(*engine, container@),
        ensures
            start_ends_in(*engine, container@, done_model(r)),
    {
        let call = Self::start_call(container);
        let ghost asked = call;
        let reply = engine(call);
        let ghost first = reply;
        assert(answers(*engine, asked@, first@)) by {
            assert(call_ensures(*engine, (asked,), first));
        }
        match Self::started(container, reply) {
            Ok(next) => {
                let ghost asked_next = next;
                let state = engine(next);
                let ghost second = state;
                assert(answers(*engine, asked_next@, second@)) by {
                    assert(call_ensures(*engine, (asked_next,), second));
                }
                Self::inspected(container, state)
            },
            Err(e) => Err(e),
        }
    }

    /// The call that stops `container`, with the engine's own grace period.
    pub fn stop_call(container: &MCContainer) -> (call: EngineCall)
        ensures
            call@ == (CallModel::Stop { id: container@, wait: None }),
    {
        EngineCall::Stop { id: container.id.clone(), wait: None }
    }

    /// What the engine's answer to a stop call means.
    pub fn stopped(container: &MCContainer, reply: EngineReply) -> (r: Result<(), MCError>)
        ensures
            done_model(r) == stopped(container@, reply@),
    {
        match reply {
            EngineReply::Accepted => Ok(()),
            _ => Err(MCError::FailedToStopContainer(container.id.clone())),
        }
    }

    /// Stops `container`: one stop call, and what its answer means.
    pub fn stop<E: Fn(EngineCall) -> EngineReply>(&self, container: &MCContainer, engine: &E) -> (r:
        Result<(), MCError>)
        requires
            takes(*engine, CallModel::Stop { id: container@, wait: None }),
        ensures
            stop_ends_in(*engine, container@, done_model(r)),
    {
        let call = Self::stop_call(container);
        let ghost asked = call;
        let reply = engine(call);
        let ghost answer = reply;
        assert(answers(*engine, asked@, answer@)) by {
            assert(call_ensures(*engine, (asked,), answer));
        }
        Self::stopped(container, reply)
    }

    /// The call that writes `command` to the console of `container`: the
    /// command's line, as the bytes of its text.
    pub fn command_call(container: &MCContainer, command: &MCServerCommands) -> (call: EngineCall)
        ensures
            call@ == (CallModel::Attach {
                id: container@,
                input: encode_utf8(command@.wire_text()),
            }),
    {
        let line = command.to_string();
        EngineCall::Attach { id: container.id.clone(), input: line.as_str().as_bytes_vec() }
    }

    /// What the answer to writing `command` means. The error keeps the
    /// command.
    pub fn commanded(container: &MCContainer, command: MCServerCommands, reply: EngineReply) -> (r:
        Result<(), MCError>)
        ensures
            done_model(r) == commanded(container@, command@, reply@),
    {
        match reply {
            EngineReply::Accepted => Ok(()),
            _ => Err(MCError::FailedToRunCommand(container.id.clone(), command)),
        }
    }

    /// Writes `command` to the console of `container`. Nothing waits for the
    /// workload to act on it.
    pub fn run_command<E: Fn(EngineCall) -> EngineReply>(
        &self,
        container: &MCContainer,
        command: MCServerCommands,
        engine: &E,
    ) -> (r: Result<(), MCError>)
        requires
            takes(
                *engine,
                CallModel::Attach { id: container@, input: encode_utf8(command@.wire_text()) },
            ),
        ensures
            command_ends_in(*engine, container@, command@, done_model(r)),
    {
        let call = Self::command_call(container, &command);
        let ghost asked = call;
        let reply = engine(call);
        let ghost answer = reply;
        assert(answers(*engine, asked@, answer@)) by {
            assert(call_ensures(*engine, (asked,), answer));
        }
        Self::commanded(container, command, reply)
    }

    /// The call that reads the log of `container`: standard output and
    /// standard error together, as many trailing entries as `options` asks.
    pub fn logs_call(container: &MCContainer, options: &MCServerLogOptions) -> (call: EngineCall)
        ensures
            call@ == (CallModel::Logs {
                id: container@,
                stdout: true,
                stderr: true,
                tail: options@,
            }),
    {
        EngineCall::Logs {
            id: container.id.clone(),
            stdout: true,
            stderr: true,
            tail: options.limit().clone(),
        }
    }

    /// What the engine's answer to a log call means: every entry as one line
    /// of text, in the engine's order, nothing added and nothing left out.
    /// Bytes that are no UTF-8 are replaced, never refused.
    pub fn logged(reply: EngineReply) -> (r: Result<Vec<String>, ()>)
        ensures
            lines_model(r) == logged(reply@),
    {
        match reply {
            EngineReply::Output(entries) => {
                let mut lines: Vec<String> = Vec::new();
                let mut i: usize = 0;
                while i < entries.len()
                    invariant
                        i <= entries.len(),
                        lines.len() == i,
                        forall|j: int|
                            0 <= j < i ==> (#[trigger] lines@[j])@ == text_of(entries@[j]@),
                    decreases entries.len() - i,
                {
                    lines.push(read_text(entries[i].as_slice()));
                    i += 1;
                }
                assert forall|j: int| 0 <= j < entries.len() implies #[trigger] lines.deep_view()[j]
                    == decoded(entries.deep_view())[j] by {
                    assert(entries@[j].deep_view() =~= entries@[j]@);
                    assert(lines@[j]@ == text_of(entries@[j]@));
                }
                assert(lines.deep_view() =~= decoded(entries.deep_view()));
                Ok(lines)
            },
            _ => Err(()),
        }
    }

    /// Reads the log of `container`.
    pub fn logs<E: Fn(EngineCall) -> EngineReply>(
        &self,
        container: &MCContainer,
        options: &MCServerLogOptions,
        engine: &E,
    ) -> (r: Result<Vec<String>, ()>)
        requires
            takes(
                *engine,
                CallModel::Logs { id: container@, stdout: true, stderr: true, tail: options@ },
            ),
        ensures
            logs_end_in(*engine, container@, options@, lines_model(r)),
    {
        let call = Self::logs_call(container, options);
        let ghost asked = call;
        let reply = engine(call);
        let ghost answer = reply;
        assert(answers(*engine, asked@, answer@)) by {
            assert(call_ensures(*engine, (asked,), answer));
        }
        Self::logged(reply)
    }

    /// The call that removes `container`, running or not.
    pub fn remove_call(container: &MCContainer) -> (call: EngineCall)
        ensures
            call@ == (CallModel::Remove { id: container@, force: true }),
    {
        EngineCall::Remove { id: container.id.clone(), force: true }
    }

    /// What the engine's answer to a removal means.
    pub fn removed(container: &MCContainer, reply: EngineReply) -> (r: Result<(), MCError>)
        ensures
            done_model(r) == removed(container@, reply@),
    {
        match reply {
            EngineReply::Accepted => Ok(()),
            _ => Err(MCError::FailedToRMContainer(container.id.clone())),
        }
    }

    /// Removes `container`: one forced removal, and what its answer means.
    pub fn rm<E: Fn(EngineCall) -> EngineReply>(&self, container: &MCContainer, engine: &E) -> (r:
        Result<(), MCError>)
        requires
            takes(*engine, CallModel::Remove { id: container@, force: true }),
        ensures
            remove_ends_in(*engine, container@, done_model(r)),
    {
        let call = Self::remove_call(container);
        let ghost asked = call;
        let reply = engine(call);
        let ghost answer = reply;
        assert(answers(*engine, asked@, answer@)) by {
            assert(call_ensures(*engine, (asked,), answer));
        }
        Self::removed(container, reply)
    }
}

} // verus!
