//! The server of the decoding service as a state machine.
//!
//! The server binds its endpoint and then serves one connection after the
//! other: it reads a request line, has the file decoded, writes the samples
//! back and closes the connection. What goes wrong on a connection ends that
//! connection and nothing else. The sockets and the decoding are a driver's
//! work: the server hands it a [`ServerAction`], the driver performs it and
//! reports what happened as a [`ServerEvent`], and [`Server::step`] answers
//! with the next action.
//!
//! A connection on which the request or the decoding failed is closed
//! without a response: the client reads no bytes.

use crate::endpoint::Endpoint;
use crate::pipeline::PipelineError;
use crate::request::{parse_request, requested_path, RequestError};
use crate::response::{encode_samples, wire_bytes, ByteOrder};
use vstd::prelude::*;

verus! {

/// The kind of an I/O error, `std::io::ErrorKind`, as a value that the
/// server hands on without looking into it.
#[verifier::external_type_specification]
#[verifier::external_body]
pub struct ExErrorKind(std::io::ErrorKind);

/// Why the server stopped.
#[derive(Clone, Copy, Debug, PartialEq, Eq)]
pub enum ServerError {
    /// Another process holds the endpoint.
    AddressInUse,
    /// The endpoint could not be bound for another reason: an I/O error of
    /// this kind.
    BindError(std::io::ErrorKind),
    /// The driver reported an event that the server was not waiting for.
    UnexpectedEvent,
}

/// How a connection ended.
#[derive(Clone, Copy, Debug, PartialEq, Eq, Structural)]
pub enum ConnectionEnd {
    /// The samples were written to the client.
    Served,
    /// The request line could not be read.
    ReadFailed,
    /// The request line names no file.
    MalformedRequest(RequestError),
    /// The file could not be decoded.
    DecodeFailed(PipelineError),
    /// The response could not be written.
    WriteFailed,
}

/// The operation whose outcome the server is waiting for.
#[derive(Clone, Copy, Debug, PartialEq, Eq, Structural)]
pub enum ServerPhase {
    /// The endpoint is being bound.
    Binding,
    /// The next connection is being awaited.
    Listening,
    /// The request line is being read.
    ReadingRequest,
    /// The file is being decoded.
    Decoding,
    /// The response is being written.
    WritingResponse,
    /// The connection is being closed.
    Closing,
}

/// A server between two actions.
#[derive(Clone, Copy, Debug, PartialEq, Eq, Structural)]
pub struct Server {
    /// The operation that is under way.
    pub phase: ServerPhase,
    /// The byte order of the samples in a response.
    pub order: ByteOrder,
}

/// What the driver is asked to do next.
#[derive(Debug, PartialEq, Eq)]
pub enum ServerAction {
    /// Bind the endpoint and listen on it.
    Bind(Endpoint),
    /// Wait for the next connection and accept it.
    Accept,
    /// Read one line from the connection.
    ReadLine,
    /// Decode the file at this path.
    Decode(String),
    /// Write these bytes to the connection.
    Respond(Vec<u8>),
    /// Note how the connection ended, and close it.
    Close(ConnectionEnd),
}

/// What the driver reports of the action it was asked for.
#[derive(Debug, PartialEq, Eq)]
pub enum ServerEvent {
    /// The action was done and has nothing more to tell.
    Completed,
    /// The action was not done.
    Failed,
    /// The endpoint was not bound because another process holds it.
    AddressInUse,
    /// The endpoint was not bound for another reason: an I/O error of this
    /// kind.
    BindError(std::io::ErrorKind),
    /// This line was read from the connection.
    Line(String),
    /// The file was decoded to these samples.
    Decoded(Vec<i16>),
    /// The file was not decoded.
    DecodeFailed(PipelineError),
}

/// What a server answers to an event.
#[derive(Debug, PartialEq, Eq)]
pub enum ServerStep {
    /// The server goes on: its new state, and what the driver is to do next.
    Continue(Server, ServerAction),
    /// The server stops.
    Stop(ServerError),
}

/// An action as a mathematical value.
pub enum ServerActionView {
    Bind(Endpoint),
    Accept,
    ReadLine,
    Decode(Seq<char>),
    Respond(Seq<u8>),
    Close(ConnectionEnd),
}

/// What a server answers to an event, as a mathematical value.
pub enum ServerOutcome {
    /// The server goes on.
    Continue(Server, ServerActionView),
    /// The server stops.
    Stop(ServerError),
}

impl View for ServerAction {
    type V = ServerActionView;

    open spec fn view(&self) -> ServerActionView {
        match *self {
            ServerAction::Bind(endpoint) => ServerActionView::Bind(endpoint),
            ServerAction::Accept => ServerActionView::Accept,
            ServerAction::ReadLine => ServerActionView::ReadLine,
            ServerAction::Decode(path) => ServerActionView::Decode(path@),
            ServerAction::Respond(bytes) => ServerActionView::Respond(bytes@),
            ServerAction::Close(end) => ServerActionView::Close(end),
        }
    }
}

impl View for ServerStep {
    type V = ServerOutcome;

    open spec fn view(&self) -> ServerOutcome {
        match *self {
            ServerStep::Continue(server, action) => ServerOutcome::Continue(server, action@),
            ServerStep::Stop(error) => ServerOutcome::Stop(error),
        }
    }
}

/// The state in which a server begins: the driver has been asked to bind the
/// namespaced endpoint.
pub open spec fn server_initial(order: ByteOrder) -> ServerOutcome {
    ServerOutcome::Continue(
        Server { phase: ServerPhase::Binding, order },
        ServerActionView::Bind(Endpoint::Namespaced),
    )
}

/// The server goes on in `phase` with `action`.
pub open spec fn server_proceed(
    server: Server,
    phase: ServerPhase,
    action: ServerActionView,
) -> ServerOutcome {
    ServerOutcome::Continue(Server { phase, ..server }, action)
}

/// The server closes the connection that ended in `end`.
pub open spec fn close(server: Server, end: ConnectionEnd) -> ServerOutcome {
    server_proceed(server, ServerPhase::Closing, ServerActionView::Close(end))
}

/// The transition table: what `server` answers to `event`.
pub open spec fn server_next(server: Server, event: ServerEvent) -> ServerOutcome {
    match (server.phase, event) {
        (ServerPhase::Binding, ServerEvent::Completed) => server_proceed(
            server,
            ServerPhase::Listening,
            ServerActionView::Accept,
        ),
        (ServerPhase::Binding, ServerEvent::AddressInUse) => ServerOutcome::Stop(
            ServerError::AddressInUse,
        ),
        (ServerPhase::Binding, ServerEvent::BindError(kind)) => ServerOutcome::Stop(
            ServerError::BindError(kind),
        ),
        (ServerPhase::Listening, ServerEvent::Completed) => server_proceed(
            server,
            ServerPhase::ReadingRequest,
            ServerActionView::ReadLine,
        ),
        (ServerPhase::Listening, ServerEvent::Failed) => server_proceed(
            server,
            ServerPhase::Listening,
            ServerActionView::Accept,
        ),
        (ServerPhase::ReadingRequest, ServerEvent::Line(line)) => match requested_path(line@) {
            Ok(path) => server_proceed(
                server,
                ServerPhase::Decoding,
                ServerActionView::Decode(path),
            ),
            Err(error) => close(server, ConnectionEnd::MalformedRequest(error)),
        },
        (ServerPhase::ReadingRequest, ServerEvent::Failed) => close(
            server,
            ConnectionEnd::ReadFailed,
        ),
        (ServerPhase::Decoding, ServerEvent::Decoded(samples)) => server_proceed(
            server,
            ServerPhase::WritingResponse,
            ServerActionView::Respond(wire_bytes(samples@, server.order)),
        ),
        (ServerPhase::Decoding, ServerEvent::DecodeFailed(error)) => close(
            server,
            ConnectionEnd::DecodeFailed(error),
        ),
        (ServerPhase::WritingResponse, ServerEvent::Completed) => close(
            server,
            ConnectionEnd::Served,
        ),
        (ServerPhase::WritingResponse, ServerEvent::Failed) => close(
            server,
            ConnectionEnd::WriteFailed,
        ),
        (ServerPhase::Closing, ServerEvent::Completed) => server_proceed(
            server,
            ServerPhase::Listening,
            ServerActionView::Accept,
        ),
        _ => ServerOutcome::Stop(ServerError::UnexpectedEvent),
    }
}

impl Server {
    /// Begins the life of a server that writes samples in `order`. The
    /// first thing asked of the driver is to bind the namespaced endpoint.
    pub fn start(order: ByteOrder) -> (begin: (Server, ServerAction))
        ensures
            ServerOutcome::Continue(begin.0, begin.1@) == server_initial(order),
    {
        (Server { phase: ServerPhase::Binding, order }, ServerAction::Bind(Endpoint::Namespaced))
    }

    /// Takes the outcome of the action that was asked for last, and answers
    /// with the next action, or stops.
    pub fn step(self, event: ServerEvent) -> (step: ServerStep)
        ensures
            step@ == server_next(self, event),
    {
        let order = self.order;
        let (phase, action): (ServerPhase, ServerAction) = match (self.phase, event) {
            (ServerPhase::Binding, ServerEvent::Completed) => (
                ServerPhase::Listening,
                ServerAction::Accept,
            ),
            (ServerPhase::Binding, ServerEvent::AddressInUse) => {
                return ServerStep::Stop(ServerError::AddressInUse);
            },
            (ServerPhase::Binding, ServerEvent::BindError(kind)) => {
                return ServerStep::Stop(ServerError::BindError(kind));
            },
            (ServerPhase::Listening, ServerEvent::Completed) => (
                ServerPhase::ReadingRequest,
                ServerAction::ReadLine,
            ),
            (ServerPhase::Listening, ServerEvent::Failed) => (
                ServerPhase::Listening,
                ServerAction::Accept,
            ),
            (ServerPhase::ReadingRequest, ServerEvent::Line(line)) => {
                match parse_request(line.as_str()) {
                    Ok(path) => (ServerPhase::Decoding, ServerAction::Decode(path)),
                    Err(error) => (
                        ServerPhase::Closing,
                        ServerAction::Close(ConnectionEnd::MalformedRequest(error)),
                    ),
                }
            },
            (ServerPhase::ReadingRequest, ServerEvent::Failed) => (
                ServerPhase::Closing,
                ServerAction::Close(ConnectionEnd::ReadFailed),
            ),
            (ServerPhase::Decoding, ServerEvent::Decoded(samples)) => (
                ServerPhase::WritingResponse,
                ServerAction::Respond(encode_samples(&samples, order)),
            ),
            (ServerPhase::Decoding, ServerEvent::DecodeFailed(error)) => (
                ServerPhase::Closing,
                ServerAction::Close(ConnectionEnd::DecodeFailed(error)),
            ),
            (ServerPhase::WritingResponse, ServerEvent::Completed) => (
                ServerPhase::Closing,
                ServerAction::Close(ConnectionEnd::Served),
            ),
            (ServerPhase::WritingResponse, ServerEvent::Failed) => (
                ServerPhase::Closing,
                ServerAction::Close(ConnectionEnd::WriteFailed),
            ),
            (ServerPhase::Closing, ServerEvent::Completed) => (
                ServerPhase::Listening,
                ServerAction::Accept,
            ),
            _ => {
                return ServerStep::Stop(ServerError::UnexpectedEvent);
            },
        };
        ServerStep::Continue(Server { phase, order }, action)
    }
}

/// What a server that stands at `outcome` answers to one more event. A
/// server that has stopped stays as it is.
pub open spec fn server_advance(outcome: ServerOutcome, event: ServerEvent) -> ServerOutcome {
    match outcome {
        ServerOutcome::Continue(server, _) => server_next(server, event),
        ServerOutcome::Stop(_) => outcome,
    }
}

/// Where a server that stands at `outcome` stands after `events`.
pub open spec fn server_run(outcome: ServerOutcome, events: Seq<ServerEvent>) -> ServerOutcome
    decreases events.len(),
{
    if events.len() == 0 {
        outcome
    } else {
        server_advance(server_run(outcome, events.drop_last()), events.last())
    }
}

/// A server that waits for the next connection.
pub open spec fn listening(order: ByteOrder) -> ServerOutcome {
    ServerOutcome::Continue(
        Server { phase: ServerPhase::Listening, order },
        ServerActionView::Accept,
    )
}

/// What can become of one attempt to connect.
pub enum Connection {
    /// The connection is not accepted.
    Refused,
    /// The connection is accepted and no line can be read from it.
    Unread,
    /// A line is read that names no file.
    Malformed { line: String },
    /// A line is read, and the file it names cannot be decoded.
    Undecodable { line: String, error: PipelineError },
    /// A line is read and the file decoded, and the response cannot be
    /// written.
    Unwritten { line: String, samples: Vec<i16> },
    /// A line is read, the file decoded and the response written.
    Served { line: String, samples: Vec<i16> },
}

/// Whether the line of the connection is what its kind says: one that names
/// no file where the request is malformed, one that names a file where the
/// server went on to decode.
pub open spec fn connection_fits(connection: Connection) -> bool {
    match connection {
        Connection::Refused => true,
        Connection::Unread => true,
        Connection::Malformed { line } => requested_path(line@) is Err,
        Connection::Undecodable { line, error } => requested_path(line@) is Ok,
        Connection::Unwritten { line, samples } => requested_path(line@) is Ok,
        Connection::Served { line, samples } => requested_path(line@) is Ok,
    }
}

/// What a driver reports in the course of one attempt to connect.
pub open spec fn connection_events(connection: Connection) -> Seq<ServerEvent> {
    match connection {
        Connection::Refused => seq![ServerEvent::Failed],
        Connection::Unread => seq![
            ServerEvent::Completed,
            ServerEvent::Failed,
            ServerEvent::Completed,
        ],
        Connection::Malformed { line } => seq![
            ServerEvent::Completed,
            ServerEvent::Line(line),
            ServerEvent::Completed,
        ],
        Connection::Undecodable { line, error } => seq![
            ServerEvent::Completed,
            ServerEvent::Line(line),
            ServerEvent::DecodeFailed(error),
            ServerEvent::Completed,
        ],
        Connection::Unwritten { line, samples } => seq![
            ServerEvent::Completed,
            ServerEvent::Line(line),
            ServerEvent::Decoded(samples),
            ServerEvent::Failed,
            ServerEvent::Completed,
        ],
        Connection::Served { line, samples } => seq![
            ServerEvent::Completed,
            ServerEvent::Line(line),
            ServerEvent::Decoded(samples),
            ServerEvent::Completed,
            ServerEvent::Completed,
        ],
    }
}

/// What a driver reports in the course of several attempts to connect, one
/// after the other.
pub open spec fn connections_events(connections: Seq<Connection>) -> Seq<ServerEvent>
    decreases connections.len(),
{
    if connections.len() == 0 {
        Seq::empty()
    } else {
        connections_events(connections.drop_last()) + connection_events(connections.last())
    }
}

/// One more event advances the server by one step.
pub proof fn lemma_server_run_push(
    outcome: ServerOutcome,
    events: Seq<ServerEvent>,
    event: ServerEvent,
)
    ensures
        server_run(outcome, events.push(event)) == server_advance(
            server_run(outcome, events),
            event,
        ),
{
    assert(events.push(event).drop_last() =~= events);
}

/// A run over two sequences of events, one after the other, is the run over
/// the second from where the first one led.
pub proof fn lemma_server_run_concat(
    outcome: ServerOutcome,
    first: Seq<ServerEvent>,
    second: Seq<ServerEvent>,
)
    ensures
        server_run(outcome, first + second) == server_run(server_run(outcome, first), second),
    decreases second.len(),
{
    if second.len() == 0 {
        assert(first + second =~= first);
    } else {
        lemma_server_run_concat(outcome, first, second.drop_last());
        assert((first + second).drop_last() =~= first + second.drop_last());
    }
}

/// A server that has stopped takes no notice of further events.
pub proof fn lemma_stopped_stays(outcome: ServerOutcome, events: Seq<ServerEvent>)
    requires
        outcome is Stop,
    ensures
        server_run(outcome, events) == outcome,
    decreases events.len(),
{
    if events.len() > 0 {
        lemma_stopped_stays(outcome, events.drop_last());
    }
}

/// What the first event after the start leads to decides a run in which the
/// server stops on it.
proof fn lemma_stops_on_first(order: ByteOrder, first: ServerEvent, rest: Seq<ServerEvent>)
    requires
        server_advance(server_initial(order), first) is Stop,
    ensures
        server_run(server_initial(order), seq![first] + rest) == server_advance(
            server_initial(order),
            first,
        ),
{
    let begin = server_initial(order);
    lemma_server_run_push(begin, Seq::empty(), first);
    assert(seq![first] =~= Seq::<ServerEvent>::empty().push(first));
    lemma_server_run_concat(begin, seq![first], rest);
    lemma_stopped_stays(server_run(begin, seq![first]), rest);
}

/// A server whose endpoint another process holds stops at once, and for that
/// reason and no other: it accepts no connection, whatever is reported after
/// the failure.
pub proof fn lemma_address_in_use(order: ByteOrder, rest: Seq<ServerEvent>)
    ensures
        server_run(server_initial(order), seq![ServerEvent::AddressInUse] + rest)
            == ServerOutcome::Stop(ServerError::AddressInUse),
{
    lemma_stops_on_first(order, ServerEvent::AddressInUse, rest);
}

/// A server whose endpoint cannot be bound for another reason stops at once
/// as well, and keeps the kind of the error: it accepts no connection, and
/// the failure is not taken for an endpoint in use.
pub proof fn lemma_bind_error_keeps_kind(
    order: ByteOrder,
    kind: std::io::ErrorKind,
    rest: Seq<ServerEvent>,
)
    ensures
        server_run(server_initial(order), seq![ServerEvent::BindError(kind)] + rest)
            == ServerOutcome::Stop(ServerError::BindError(kind)),
        server_run(server_initial(order), seq![ServerEvent::BindError(kind)] + rest)
            != ServerOutcome::Stop(ServerError::AddressInUse),
{
    lemma_stops_on_first(order, ServerEvent::BindError(kind), rest);
}

/// Once the endpoint is bound, the server stops on nothing that it waits
/// for: only an event out of turn ends it.
pub proof fn lemma_bound_server_goes_on(server: Server, event: ServerEvent)
    requires
        server.phase != ServerPhase::Binding,
    ensures
        server_next(server, event) matches ServerOutcome::Stop(error) ==> error
            == ServerError::UnexpectedEvent,
{
}

/// However an attempt to connect ends, it leaves the server as it found it:
/// waiting for the next connection.
pub proof fn lemma_connection_ends_listening(order: ByteOrder, connection: Connection)
    requires
        connection_fits(connection),
    ensures
        server_run(listening(order), connection_events(connection)) == listening(order),
{
    let begin = listening(order);
    let e0 = Seq::<ServerEvent>::empty();
    match connection {
        Connection::Refused => {
            lemma_server_run_push(begin, e0, ServerEvent::Failed);
            assert(connection_events(connection) =~= e0.push(ServerEvent::Failed));
        },
        Connection::Unread => {
            let e1 = e0.push(ServerEvent::Completed);
            let e2 = e1.push(ServerEvent::Failed);
            let e3 = e2.push(ServerEvent::Completed);
            lemma_server_run_push(begin, e0, ServerEvent::Completed);
            lemma_server_run_push(begin, e1, ServerEvent::Failed);
            lemma_server_run_push(begin, e2, ServerEvent::Completed);
            assert(connection_events(connection) =~= e3);
        },
        Connection::Malformed { line } => {
            let e1 = e0.push(ServerEvent::Completed);
            let e2 = e1.push(ServerEvent::Line(line));
            let e3 = e2.push(ServerEvent::Completed);
            lemma_server_run_push(begin, e0, ServerEvent::Completed);
            lemma_server_run_push(begin, e1, ServerEvent::Line(line));
            lemma_server_run_push(begin, e2, ServerEvent::Completed);
            assert(connection_events(connection) =~= e3);
        },
        Connection::Undecodable { line, error } => {
            let e1 = e0.push(ServerEvent::Completed);
            let e2 = e1.push(ServerEvent::Line(line));
            let e3 = e2.push(ServerEvent::DecodeFailed(error));
            let e4 = e3.push(ServerEvent::Completed);
            lemma_server_run_push(begin, e0, ServerEvent::Completed);
            lemma_server_run_push(begin, e1, ServerEvent::Line(line));
            lemma_server_run_push(begin, e2, ServerEvent::DecodeFailed(error));
            lemma_server_run_push(begin, e3, ServerEvent::Completed);
            assert(connection_events(connection) =~= e4);
        },
        Connection::Unwritten { line, samples } => {
            let e1 = e0.push(ServerEvent::Completed);
            let e2 = e1.push(ServerEvent::Line(line));
            let e3 = e2.push(ServerEvent::Decoded(samples));
            let e4 = e3.push(ServerEvent::Failed);
            let e5 = e4.push(ServerEvent::Completed);
            lemma_server_run_push(begin, e0, ServerEvent::Completed);
            lemma_server_run_push(begin, e1, ServerEvent::Line(line));
            lemma_server_run_push(begin, e2, ServerEvent::Decoded(samples));
            lemma_server_run_push(begin, e3, ServerEvent::Failed);
            lemma_server_run_push(begin, e4, ServerEvent::Completed);
            assert(connection_events(connection) =~= e5);
        },
        Connection::Served { line, samples } => {
            let e1 = e0.push(ServerEvent::Completed);
            let e2 = e1.push(ServerEvent::Line(line));
            let e3 = e2.push(ServerEvent::Decoded(samples));
            let e4 = e3.push(ServerEvent::Completed);
            let e5 = e4.push(ServerEvent::Completed);
            lemma_server_run_push(begin, e0, ServerEvent::Completed);
            lemma_server_run_push(begin, e1, ServerEvent::Line(line));
            lemma_server_run_push(begin, e2, ServerEvent::Decoded(samples));
            lemma_server_run_push(begin, e3, ServerEvent::Completed);
            lemma_server_run_push(begin, e4, ServerEvent::Completed);
            assert(connection_events(connection) =~= e5);
        },
    }
}

/// Whatever became of the connections before, the server waits for the next
/// one: a request that fails takes nothing from those that follow.
pub proof fn lemma_connections_end_listening(order: ByteOrder, connections: Seq<Connection>)
    requires
        forall|i: int| 0 <= i < connections.len() ==> connection_fits(#[trigger] connections[i]),
    ensures
        server_run(listening(order), connections_events(connections)) == listening(order),
    decreases connections.len(),
{
    if connections.len() > 0 {
        let before = connections.drop_last();
        assert forall|i: int| 0 <= i < before.len() implies connection_fits(
            #[trigger] before[i],
        ) by {
            assert(before[i] == connections[i]);
        }
        lemma_connections_end_listening(order, before);
        lemma_connection_ends_listening(order, connections.last());
        lemma_server_run_concat(
            listening(order),
            connections_events(before),
            connection_events(connections.last()),
        );
    }
}

/// The response to a decoded file is twice as long, in bytes, as the file
/// has samples.
pub proof fn lemma_response_length(order: ByteOrder, samples: Vec<i16>)
    ensures
        server_next(
            Server { phase: ServerPhase::Decoding, order },
            ServerEvent::Decoded(samples),
        ) matches ServerOutcome::Continue(_, ServerActionView::Respond(bytes)) && bytes.len() == 2
            * samples@.len(),
{
}

} // verus!
