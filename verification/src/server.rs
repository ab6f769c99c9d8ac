//! The request/response face of the service: which operation a request asks
//! for, and how the operation's result is answered.
use vstd::prelude::*;
use vstd::slice::slice_subrange;
use vstd::string::StringSliceAdditionalSpecFns;
use crate::engine::{EngineCall, EngineReply};
use crate::error::{ErrorModel, MCError};
use crate::options::{MCServerOptions, OptionsModel};
use crate::engine::CallModel;
use crate::service::{
    create_ends_in, create_payload, done_model, handle_model, remove_ends_in, start_ends_in,
    start_is_taken, stop_ends_in, takes, MCContainer, MCContainerService, MCService,
};
use crate::text::{find_byte, first_index, read_text, same_bytes, text_of};

verus! {

/// The byte that separates the segments of a path.
pub const SLASH: u8 = 47;

/// The byte that ends the path of a URL and opens its query.
pub const QUERY_MARK: u8 = 63;

/// The byte that opens a percent-encoded byte.
pub const PERCENT: u8 = 37;

/// The value of a hexadecimal digit, in either case.
pub open spec fn hex_value(b: u8) -> Option<u8> {
    if 48 <= b <= 57 {
        Some((b - 48) as u8)
    } else if 65 <= b <= 70 {
        Some((b - 55) as u8)
    } else if 97 <= b <= 102 {
        Some((b - 87) as u8)
    } else {
        None
    }
}

/// The bytes that percent-decoding makes of `s`: a percent sign followed by
/// two hexadecimal digits becomes the byte they spell, every other byte
/// stands for itself.
pub open spec fn percent_decoded(s: Seq<u8>) -> Seq<u8>
    decreases s.len(),
{
    if s.len() == 0 {
        s
    } else if s[0] == PERCENT && s.len() >= 3 && hex_value(s[1]) is Some && hex_value(
        s[2],
    ) is Some {
        seq![(hex_value(s[1])->0 * 16 + hex_value(s[2])->0) as u8] + percent_decoded(s.skip(3))
    } else {
        seq![s[0]] + percent_decoded(s.skip(1))
    }
}

/// The value of a hexadecimal digit, in either case.
pub fn hex_digit(b: u8) -> (r: Option<u8>)
    ensures
        r == hex_value(b),
{
    if 48 <= b && b <= 57 {
        Some(b - 48)
    } else if 65 <= b && b <= 70 {
        Some(b - 55)
    } else if 97 <= b && b <= 102 {
        Some(b - 87)
    } else {
        None
    }
}

/// Percent-decodes `input`: every percent sign that two hexadecimal digits
/// follow becomes the byte they spell; all other bytes are kept.
pub fn percent_decode(input: &[u8]) -> (r: Vec<u8>)
    ensures
        r@ == percent_decoded(input@),
{
    let mut out: Vec<u8> = Vec::new();
    let mut i: usize = 0;
    assert(input@.skip(0) =~= input@);
    while i < input.len()
        invariant
            i <= input@.len(),
            out@ + percent_decoded(input@.skip(i as int)) == percent_decoded(input@),
        decreases input@.len() - i,
    {
        let ghost rest = input@.skip(i as int);
        let mut byte: u8 = input[i];
        let mut step: usize = 1;
        if byte == PERCENT && input.len() - i >= 3 {
            match (hex_digit(input[i + 1]), hex_digit(input[i + 2])) {
                (Some(high), Some(low)) => {
                    byte = high * 16 + low;
                    step = 3;
                },
                _ => {},
            }
        }
        proof {
            assert(rest[0] == input@[i as int]);
            if rest.len() >= 3 {
                assert(rest[1] == input@[i + 1]);
                assert(rest[2] == input@[i + 2]);
            }
            assert(rest.skip(step as int) =~= input@.skip(i + step));
            assert(percent_decoded(rest) == seq![byte] + percent_decoded(rest.skip(step as int)));
            assert(out@.push(byte) + percent_decoded(rest.skip(step as int)) =~= out@
                + percent_decoded(rest));
        }
        out.push(byte);
        i += step;
    }
    assert(out@ + percent_decoded(input@.skip(i as int)) =~= out@);
    out
}

/// The operation a request asks for.
#[derive(Debug, PartialEq, Eq)]
pub enum Route {
    /// Create a container.
    CreateContainer,
    /// Start the container with this id.
    StartContainer(String),
    /// Stop the container with this id.
    StopContainer(String),
    /// Remove the container with this id.
    RemoveContainer(String),
    /// Nothing this service offers.
    NotFound,
}

/// A route, with the container's id as a sequence of characters.
pub ghost enum RouteModel {
    CreateContainer,
    StartContainer(Seq<char>),
    StopContainer(Seq<char>),
    RemoveContainer(Seq<char>),
    NotFound,
}

impl View for Route {
    type V = RouteModel;

    open spec fn view(&self) -> RouteModel {
        match self {
            Route::CreateContainer => RouteModel::CreateContainer,
            Route::StartContainer(id) => RouteModel::StartContainer(id@),
            Route::StopContainer(id) => RouteModel::StopContainer(id@),
            Route::RemoveContainer(id) => RouteModel::RemoveContainer(id@),
            Route::NotFound => RouteModel::NotFound,
        }
    }
}

/// The path of a URL: what stands before its query.
pub open spec fn path_of(url: Seq<u8>) -> Seq<u8> {
    url.take(first_index(url, QUERY_MARK))
}

/// The container id that a segment of a path spells: the segment,
/// percent-decoded, as text.
pub open spec fn segment_id(segment: Seq<u8>) -> Seq<char> {
    text_of(percent_decoded(segment))
}

/// A path below `/container/`, split into the segment that names the
/// container and what follows that segment; `None` for any other path.
pub open spec fn container_path(path: Seq<u8>) -> Option<(Seq<u8>, Seq<u8>)> {
    let prefix = "/container/".spec_bytes();
    if path.len() >= prefix.len() && path.take(prefix.len() as int) == prefix {
        let rest = path.skip(prefix.len() as int);
        let n = first_index(rest, SLASH);
        Some((rest.take(n), rest.skip(n)))
    } else {
        None
    }
}

/// The operation that a request with this method and URL asks for:
/// `POST /container` creates, `POST /container/{id}/start` starts,
/// `POST /container/{id}/stop` stops and `DELETE /container/{id}` removes.
/// The query of the URL plays no part.
pub open spec fn route_of(method: Seq<u8>, url: Seq<u8>) -> RouteModel {
    let path = path_of(url);
    if method == "POST".spec_bytes() {
        if path == "/container".spec_bytes() {
            RouteModel::CreateContainer
        } else {
            match container_path(path) {
                Some((segment, rest)) => if rest == "/start".spec_bytes() {
                    RouteModel::StartContainer(segment_id(segment))
                } else if rest == "/stop".spec_bytes() {
                    RouteModel::StopContainer(segment_id(segment))
                } else {
                    RouteModel::NotFound
                },
                None => RouteModel::NotFound,
            }
        }
    } else if method == "DELETE".spec_bytes() {
        match container_path(path) {
            Some((segment, rest)) => if rest.len() == 0 {
                RouteModel::RemoveContainer(segment_id(segment))
            } else {
                RouteModel::NotFound
            },
            None => RouteModel::NotFound,
        }
    } else {
        RouteModel::NotFound
    }
}

/// The body of an answer: a success payload or an error message, never both.
#[derive(Debug, PartialEq, Eq)]
pub struct BasicResponse {
    pub success: Option<String>,
    pub error: Option<String>,
}

/// A body, with its texts as sequences of characters.
pub ghost struct ResponseModel {
    pub success: Option<Seq<char>>,
    pub error: Option<Seq<char>>,
}

impl View for BasicResponse {
    type V = ResponseModel;

    open spec fn view(&self) -> ResponseModel {
        ResponseModel { success: self.success.deep_view(), error: self.error.deep_view() }
    }
}

impl BasicResponse {
    /// A body that reports success with `response` as its payload.
    pub fn success(response: String) -> (r: Self)
        ensures
            r@ == (ResponseModel { success: Some(response@), error: None }),
    {
        BasicResponse { success: Some(response), error: None }
    }

    /// A body that reports failure with `response` as its message.
    pub fn error(response: String) -> (r: Self)
        ensures
            r@ == (ResponseModel { success: None, error: Some(response@) }),
    {
        BasicResponse { error: Some(response), success: None }
    }
}

/// An answer to a request: a status and, where there is one, a body.
#[derive(Debug, PartialEq, Eq)]
pub struct HttpAnswer {
    pub status: u16,
    pub body: Option<BasicResponse>,
}

/// An answer, with its body's texts as sequences of characters.
pub ghost struct AnswerModel {
    pub status: u16,
    pub body: Option<ResponseModel>,
}

impl View for HttpAnswer {
    type V = AnswerModel;

    open spec fn view(&self) -> AnswerModel {
        AnswerModel {
            status: self.status,
            body: match self.body {
                Some(body) => Some(body@),
                None => None,
            },
        }
    }
}

/// The answer to a failed operation: a client error with the error's message.
pub open spec fn failure_answer(e: ErrorModel) -> AnswerModel {
    AnswerModel {
        status: 400,
        body: Some(ResponseModel { success: None, error: Some(e.message()) }),
    }
}

/// The answer to a creation: the new container's id, or the error's message.
pub open spec fn created_answer(outcome: Result<Seq<char>, ErrorModel>) -> AnswerModel {
    match outcome {
        Ok(id) => AnswerModel {
            status: 200,
            body: Some(ResponseModel { success: Some(id), error: None }),
        },
        Err(e) => failure_answer(e),
    }
}

/// The answer to an operation that gives nothing back: the word `success`,
/// or the error's message.
pub open spec fn done_answer(outcome: Result<(), ErrorModel>) -> AnswerModel {
    match outcome {
        Ok(_) => AnswerModel {
            status: 200,
            body: Some(ResponseModel { success: Some("success"@), error: None }),
        },
        Err(e) => failure_answer(e),
    }
}

/// The answer to a request that asks for nothing this service offers.
pub open spec fn not_found_answer() -> AnswerModel {
    AnswerModel { status: 404, body: None }
}

/// Whether the engine takes what answering a request for `route` hands it:
/// the calls of the operation that the route names, and no call at all for a
/// request that names none.
pub open spec fn serves<E: Fn(EngineCall) -> EngineReply>(
    engine: E,
    image: Seq<char>,
    options: OptionsModel,
    route: RouteModel,
) -> bool {
    match route {
        RouteModel::CreateContainer => takes(
            engine,
            CallModel::Create(create_payload(image, options)),
        ),
        RouteModel::StartContainer(id) => start_is_taken(engine, id),
        RouteModel::StopContainer(id) => takes(engine, CallModel::Stop { id, wait: None }),
        RouteModel::RemoveContainer(id) => takes(engine, CallModel::Remove { id, force: true }),
        RouteModel::NotFound => true,
    }
}

/// Whether answering a request for `route` can end in `answer`: the
/// operation that the route names ends in some outcome against the engine,
/// and `answer` is the answer to that outcome.
pub open spec fn handled<E: Fn(EngineCall) -> EngineReply>(
    engine: E,
    image: Seq<char>,
    options: OptionsModel,
    route: RouteModel,
    answer: AnswerModel,
) -> bool {
    match route {
        RouteModel::CreateContainer => exists|outcome: Result<Seq<char>, ErrorModel>|
            #[trigger] create_ends_in(engine, image, options, outcome) && answer == created_answer(
                outcome,
            ),
        RouteModel::StartContainer(id) => exists|outcome: Result<(), ErrorModel>|
            #[trigger] start_ends_in(engine, id, outcome) && answer == done_answer(outcome),
        RouteModel::StopContainer(id) => exists|outcome: Result<(), ErrorModel>|
            #[trigger] stop_ends_in(engine, id, outcome) && answer == done_answer(outcome),
        RouteModel::RemoveContainer(id) => exists|outcome: Result<(), ErrorModel>|
            #[trigger] remove_ends_in(engine, id, outcome) && answer == done_answer(outcome),
        RouteModel::NotFound => answer == not_found_answer(),
    }
}

/// Answers requests.
pub struct Server;

impl Server {
    /// A server.
    pub fn new() -> (r: Self) {
        Server
    }

    /// A path below `/container/`, split into the segment that names the
    /// container and what follows it.
    fn split_container_path(path: &[u8]) -> (r: Option<(&[u8], &[u8])>)
        ensures
            match r {
                Some((segment, rest)) => container_path(path@) == Some((segment@, rest@)),
                None => container_path(path@) is None,
            },
    {
        let prefix = "/container/".as_bytes();
        if path.len() < prefix.len() {
            return None;
        }
        if !same_bytes(slice_subrange(path, 0, prefix.len()), prefix) {
            return None;
        }
        let rest = slice_subrange(path, prefix.len(), path.len());
        let n = find_byte(rest, SLASH);
        Some((slice_subrange(rest, 0, n), slice_subrange(rest, n, rest.len())))
    }

    /// The container id that a segment of a path spells.
    fn id_of(segment: &[u8]) -> (r: String)
        ensures
            r@ == segment_id(segment@),
    {
        let decoded = percent_decode(segment);
        read_text(decoded.as_slice())
    }

    /// The operation that a request with this method and URL asks for.
    pub fn route(method: &str, url: &str) -> (r: Route)
        ensures
            r@ == route_of(method.spec_bytes(), url.spec_bytes()),
    {
        let method = method.as_bytes();
        let url = url.as_bytes();
        let path = slice_subrange(url, 0, find_byte(url, QUERY_MARK));
        if same_bytes(method, "POST".as_bytes()) {
            if same_bytes(path, "/container".as_bytes()) {
                return Route::CreateContainer;
            }
            match Self::split_container_path(path) {
                Some((segment, rest)) => {
                    if same_bytes(rest, "/start".as_bytes()) {
                        Route::StartContainer(Self::id_of(segment))
                    } else if same_bytes(rest, "/stop".as_bytes()) {
                        Route::StopContainer(Self::id_of(segment))
                    } else {
                        Route::NotFound
                    }
                },
                None => Route::NotFound,
            }
        } else if same_bytes(method, "DELETE".as_bytes()) {
            match Self::split_container_path(path) {
                Some((segment, rest)) => {
                    if rest.len() == 0 {
                        Route::RemoveContainer(Self::id_of(segment))
                    } else {
                        Route::NotFound
                    }
                },
                None => Route::NotFound,
            }
        } else {
            Route::NotFound
        }
    }

    /// The answer to a failed operation.
    fn failure(e: &MCError) -> (r: HttpAnswer)
        ensures
            r@ == failure_answer(e@),
    {
        HttpAnswer { status: 400, body: Some(BasicResponse::error(e.to_string())) }
    }

    /// The answer to a creation: success carries the new container's id, a
    /// failure is a client error with the error's message.
    pub fn created_response(result: Result<MCContainer, MCError>) -> (r: HttpAnswer)
        ensures
            r@ == created_answer(handle_model(result)),
    {
        match result {
            Ok(container) => HttpAnswer {
                status: 200,
                body: Some(BasicResponse::success(container.id)),
            },
            Err(e) => Self::failure(&e),
        }
    }

    /// The answer to an operation that gives nothing back: success carries
    /// the word `success`, a failure is a client error with the error's
    /// message.
    pub fn done_response(result: Result<(), MCError>) -> (r: HttpAnswer)
        ensures
            r@ == done_answer(done_model(result)),
    {
        match result {
            Ok(_) => HttpAnswer {
                status: 200,
                body: Some(BasicResponse::success(String::from_str("success"))),
            },
            Err(e) => Self::failure(&e),
        }
    }

    /// The answer to a request that asks for nothing this service offers.
    pub fn not_found_response() -> (r: HttpAnswer)
        ensures
            r@ == not_found_answer(),
    {
        HttpAnswer { status: 404, body: None }
    }

    /// Answers one request: finds the operation it asks for, carries it out
    /// against the engine with services made for this request alone, and
    /// answers with the result. Containers are created for `options`.
    pub fn handle<E: Fn(EngineCall) -> EngineReply>(
        &self,
        method: &str,
        url: &str,
        options: &MCServerOptions,
        engine: &E,
    ) -> (r: HttpAnswer)
        requires
            serves(
                *engine,
                "itzg/minecraft-server"@,
                options@,
                route_of(method.spec_bytes(), url.spec_bytes()),
            ),
        ensures
            handled(
                *engine,
                "itzg/minecraft-server"@,
                options@,
                route_of(method.spec_bytes(), url.spec_bytes()),
                r@,
            ),
    {
        let mc_service = MCService::new();
        let container_service = MCContainerService::new();
        let route = Self::route(method, url);
        let ghost asked = route@;
        match route {
            Route::CreateContainer => {
                let result = mc_service.create(options, engine);
                Self::created_response(result)
            },
            Route::StartContainer(id) => {
                let container = MCService::get_container(id);
                let result = container_service.start(&container, engine);
                assert(start_ends_in(*engine, asked->StartContainer_0, done_model(result)));
                Self::done_response(result)
            },
            Route::StopContainer(id) => {
                let container = MCService::get_container(id);
                let result = container_service.stop(&container, engine);
                assert(stop_ends_in(*engine, asked->StopContainer_0, done_model(result)));
                Self::done_response(result)
            },
            Route::RemoveContainer(id) => {
                let container = MCService::get_container(id);
                let result = container_service.rm(&container, engine);
                assert(remove_ends_in(*engine, asked->RemoveContainer_0, done_model(result)));
                Self::done_response(result)
            },
            Route::NotFound => Self::not_found_response(),
        }
    }
}

} // verus!
