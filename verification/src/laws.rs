//! What holds of the lifecycle operations against every engine.
use vstd::prelude::*;
use crate::command::CommandModel;
use crate::engine::{CallModel, EngineCall, EngineReply, ReplyModel};
use crate::error::ErrorModel;
use crate::options::OptionsModel;
use crate::service::{
    answers, command_ends_in, create_ends_in, decoded, handle_for, inspected, logs_end_in,
    remove_ends_in, start_ends_in, started, stop_ends_in,
};
use crate::service::{always_answers, takes};
use crate::text::text_of;
use vstd::utf8::{decode_utf8, valid_utf8};

verus! {

/// Whether every container the engine reports as created has a name: its id
/// is not empty.
pub open spec fn names_what_it_creates<E: Fn(EngineCall) -> EngineReply>(engine: E) -> bool {
    forall|call: CallModel, reply: ReplyModel| #[trigger]
        answers(engine, call, reply) ==> (reply matches ReplyModel::Created { id, .. } ==> id.len()
            > 0)
}

/// Whether the engine refuses every call about the container `id`, as it does
/// once the container is gone.
pub open spec fn refuses<E: Fn(EngineCall) -> EngineReply>(engine: E, id: Seq<char>) -> bool {
    forall|call: CallModel, reply: ReplyModel| #[trigger]
        answers(engine, call, reply) && call.container() == Some(id) ==> reply is Fault
}

/// Creation ends in exactly one of two ways: a handle, or
/// `FailedToCreateContainer`. Against an engine that names what it creates,
/// the handle's id is not empty.
pub proof fn lemma_create_gives_handle_or_failure<E: Fn(EngineCall) -> EngineReply>(
    engine: E,
    image: Seq<char>,
    options: OptionsModel,
    outcome: Result<Seq<char>, ErrorModel>,
)
    requires
        names_what_it_creates(engine),
        create_ends_in(engine, image, options, outcome),
    ensures
        match outcome {
            Ok(id) => id.len() > 0,
            Err(e) => e == ErrorModel::FailedToCreateContainer,
        },
{
}

/// A handle made again from the id of a created container is the handle
/// that creation gave.
pub proof fn lemma_handle_round_trip<E: Fn(EngineCall) -> EngineReply>(
    engine: E,
    image: Seq<char>,
    options: OptionsModel,
    id: Seq<char>,
)
    requires
        create_ends_in(engine, image, options, Ok(id)),
    ensures
        handle_for(id) == id,
        create_ends_in(engine, image, options, Ok(handle_for(id))),
{
}

/// A start that the engine accepted has still failed where the state read
/// back carries an error: the outcome is `ContainerError` with the
/// container's id and the engine's message as it came.
pub proof fn lemma_start_reports_fault_after_accepted_start<E: Fn(EngineCall) -> EngineReply>(
    engine: E,
    id: Seq<char>,
    message: Seq<char>,
    outcome: Result<(), ErrorModel>,
)
    requires
        message.len() > 0,
        forall|reply: ReplyModel| #[trigger]
            answers(engine, CallModel::Start { id }, reply) ==> reply is Accepted,
        forall|reply: ReplyModel| #[trigger]
            answers(engine, CallModel::Inspect { id }, reply) ==> reply == (ReplyModel::State {
                error: message,
            }),
        start_ends_in(engine, id, outcome),
    ensures
        outcome == Err::<(), ErrorModel>(ErrorModel::ContainerError(id, message)),
{
}

/// A start that the engine refuses, as it may a second start of a running
/// container, fails with `FailedToStartContainer`; the state is not read.
pub proof fn lemma_refused_start_fails<E: Fn(EngineCall) -> EngineReply>(
    engine: E,
    id: Seq<char>,
    outcome: Result<(), ErrorModel>,
)
    requires
        forall|reply: ReplyModel| #[trigger]
            answers(engine, CallModel::Start { id }, reply) ==> !(reply is Accepted),
        start_ends_in(engine, id, outcome),
    ensures
        outcome == Err::<(), ErrorModel>(ErrorModel::FailedToStartContainer(id)),
{
}

/// A start succeeds only where the engine accepted it and the state read
/// back carries no error; every other course ends in an error that names
/// the container. What an earlier start did plays no part.
pub proof fn lemma_start_follows_the_engine(id: Seq<char>, first: ReplyModel, second: ReplyModel)
    ensures
        match started(id, first) {
            Ok(next) => first is Accepted && next == (CallModel::Inspect { id }),
            Err(e) => !(first is Accepted) && e == ErrorModel::FailedToStartContainer(id),
        },
        inspected(id, second) is Ok <==> (second matches ReplyModel::State { error } && error.len()
            == 0),
        inspected(id, second) matches Err(e) ==> e.container_id() == Some(id),
{
}

/// The log lines are the entries the engine gave: as many, in the same
/// order, each the text of its entry. An entry that is well-formed UTF-8
/// comes back as exactly the text it encodes.
pub proof fn lemma_logs_keep_every_entry<E: Fn(EngineCall) -> EngineReply>(
    engine: E,
    id: Seq<char>,
    tail: Seq<char>,
    entries: Seq<Seq<u8>>,
    outcome: Result<Seq<Seq<char>>, ()>,
)
    requires
        forall|reply: ReplyModel| #[trigger]
            answers(engine, CallModel::Logs { id, stdout: true, stderr: true, tail }, reply)
                ==> reply == ReplyModel::Output(entries),
        logs_end_in(engine, id, tail, outcome),
    ensures
        outcome matches Ok(lines) && lines.len() == entries.len() && forall|i: int|
            0 <= i < entries.len() ==> #[trigger] lines[i] == text_of(entries[i]) && (valid_utf8(
                entries[i],
            ) ==> lines[i] == decode_utf8(entries[i])),
{
    assert(outcome == Ok::<Seq<Seq<char>>, ()>(decoded(entries)));
}

/// Once the engine refuses every call about a container, starting it,
/// stopping it, writing to its console and removing it all fail, each with an
/// error that names the container.
pub proof fn lemma_gone_container_fails_by_name<E: Fn(EngineCall) -> EngineReply>(
    engine: E,
    id: Seq<char>,
    command: CommandModel,
    outcome: Result<(), ErrorModel>,
)
    requires
        refuses(engine, id),
        start_ends_in(engine, id, outcome) || stop_ends_in(engine, id, outcome) || command_ends_in(
            engine,
            id,
            command,
            outcome,
        ) || remove_ends_in(engine, id, outcome),
    ensures
        outcome matches Err(e) && e.container_id() == Some(id),
{
}

/// An engine that takes every call can be handed to every operation.
pub proof fn lemma_total_engine_serves<E: Fn(EngineCall) -> EngineReply>(
    engine: E,
    call: CallModel,
)
    requires
        forall|c: EngineCall| call_requires(engine, (c,)),
    ensures
        takes(engine, call),
        always_answers(engine),
{
}

} // verus!
