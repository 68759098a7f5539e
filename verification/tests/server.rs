use audio_downsample::endpoint::Endpoint;
use audio_downsample::pipeline::PipelineError;
use audio_downsample::request::RequestError;
use audio_downsample::response::ByteOrder;
use audio_downsample::server::{
    ConnectionEnd, Server, ServerAction, ServerError, ServerEvent, ServerPhase, ServerStep,
};
use std::io::ErrorKind;

fn go_on(step: ServerStep) -> (Server, ServerAction) {
    match step {
        ServerStep::Continue(server, action) => (server, action),
        ServerStep::Stop(error) => panic!("the server stopped: {:?}", error),
    }
}

fn expect(server: Server, event: ServerEvent, action: ServerAction, phase: ServerPhase) -> Server {
    let (server, got) = go_on(server.step(event));
    assert_eq!(got, action);
    assert_eq!(server.phase, phase);
    server
}

fn listening(order: ByteOrder) -> Server {
    let (server, action) = Server::start(order);
    assert_eq!(action, ServerAction::Bind(Endpoint::Namespaced));
    assert_eq!(server.phase, ServerPhase::Binding);
    assert_eq!(server.order, order);
    expect(server, ServerEvent::Completed, ServerAction::Accept, ServerPhase::Listening)
}

fn serve(server: Server, line: &str, samples: Vec<i16>, bytes: Vec<u8>, path: &str) -> Server {
    let s = expect(server, ServerEvent::Completed, ServerAction::ReadLine, ServerPhase::ReadingRequest);
    let s = expect(
        s,
        ServerEvent::Line(String::from(line)),
        ServerAction::Decode(String::from(path)),
        ServerPhase::Decoding,
    );
    let s = expect(
        s,
        ServerEvent::Decoded(samples),
        ServerAction::Respond(bytes),
        ServerPhase::WritingResponse,
    );
    let s = expect(
        s,
        ServerEvent::Completed,
        ServerAction::Close(ConnectionEnd::Served),
        ServerPhase::Closing,
    );
    expect(s, ServerEvent::Completed, ServerAction::Accept, ServerPhase::Listening)
}

#[test]
fn server_begins_by_binding_the_namespaced_endpoint() {
    listening(ByteOrder::LittleEndian);
}

#[test]
fn endpoint_in_use_stops_the_server_with_its_own_error() {
    let (server, _) = Server::start(ByteOrder::LittleEndian);
    assert_eq!(
        server.step(ServerEvent::AddressInUse),
        ServerStep::Stop(ServerError::AddressInUse)
    );
}

#[test]
fn bind_that_fails_otherwise_stops_the_server_with_the_kind_of_the_error() {
    let kinds = [
        ErrorKind::PermissionDenied,
        ErrorKind::NotFound,
        ErrorKind::InvalidInput,
        ErrorKind::Unsupported,
        ErrorKind::Other,
    ];
    for kind in kinds {
        let (server, _) = Server::start(ByteOrder::BigEndian);
        let step = server.step(ServerEvent::BindError(kind));
        assert_eq!(step, ServerStep::Stop(ServerError::BindError(kind)));
        assert_ne!(step, ServerStep::Stop(ServerError::AddressInUse));
    }
    assert_ne!(
        ServerError::BindError(ErrorKind::PermissionDenied),
        ServerError::BindError(ErrorKind::NotFound)
    );
}

#[test]
fn bind_error_is_no_event_of_a_bound_server() {
    let s = listening(ByteOrder::LittleEndian);
    assert_eq!(
        s.step(ServerEvent::BindError(ErrorKind::PermissionDenied)),
        ServerStep::Stop(ServerError::UnexpectedEvent)
    );
}

#[test]
fn failure_without_a_kind_is_no_answer_to_a_bind() {
    let (server, _) = Server::start(ByteOrder::LittleEndian);
    assert_eq!(server.step(ServerEvent::Failed), ServerStep::Stop(ServerError::UnexpectedEvent));
}

#[test]
fn connection_that_is_not_accepted_is_passed_over() {
    let s = listening(ByteOrder::LittleEndian);
    let s = expect(s, ServerEvent::Failed, ServerAction::Accept, ServerPhase::Listening);
    let s = expect(s, ServerEvent::Failed, ServerAction::Accept, ServerPhase::Listening);
    serve(s, "a.wav\n", vec![1], vec![1, 0], "a.wav");
}

#[test]
fn request_is_decoded_and_answered_in_little_endian() {
    let s = listening(ByteOrder::LittleEndian);
    serve(s, "/music/a.wav\r\n", vec![1, -2, 0x0305], vec![1, 0, 0xFE, 0xFF, 0x05, 0x03], "/music/a.wav");
}

#[test]
fn request_is_decoded_and_answered_in_big_endian() {
    let s = listening(ByteOrder::BigEndian);
    serve(s, "b.flac\n", vec![1, -2, 0x0305], vec![0, 1, 0xFF, 0xFE, 0x03, 0x05], "b.flac");
}

#[test]
fn empty_buffer_is_answered_with_no_bytes() {
    let s = listening(ByteOrder::LittleEndian);
    serve(s, "silent.wav\n", vec![], vec![], "silent.wav");
}

#[test]
fn malformed_request_ends_the_connection_and_not_the_server() {
    let s = listening(ByteOrder::LittleEndian);
    let s = expect(s, ServerEvent::Completed, ServerAction::ReadLine, ServerPhase::ReadingRequest);
    let s = expect(
        s,
        ServerEvent::Line(String::new()),
        ServerAction::Close(ConnectionEnd::MalformedRequest(RequestError::EmptyPath)),
        ServerPhase::Closing,
    );
    let s = expect(s, ServerEvent::Completed, ServerAction::Accept, ServerPhase::Listening);
    assert_eq!(s, listening(ByteOrder::LittleEndian));
    serve(s, "a.wav\n", vec![2, 3], vec![2, 0, 3, 0], "a.wav");
}

#[test]
fn line_of_white_space_is_malformed_for_the_server() {
    let s = listening(ByteOrder::LittleEndian);
    let s = expect(s, ServerEvent::Completed, ServerAction::ReadLine, ServerPhase::ReadingRequest);
    expect(
        s,
        ServerEvent::Line(String::from(" \r\n")),
        ServerAction::Close(ConnectionEnd::MalformedRequest(RequestError::EmptyPath)),
        ServerPhase::Closing,
    );
}

#[test]
fn line_that_cannot_be_read_ends_the_connection_and_not_the_server() {
    let s = listening(ByteOrder::LittleEndian);
    let s = expect(s, ServerEvent::Completed, ServerAction::ReadLine, ServerPhase::ReadingRequest);
    let s = expect(
        s,
        ServerEvent::Failed,
        ServerAction::Close(ConnectionEnd::ReadFailed),
        ServerPhase::Closing,
    );
    let s = expect(s, ServerEvent::Completed, ServerAction::Accept, ServerPhase::Listening);
    serve(s, "a.wav\n", vec![2], vec![2, 0], "a.wav");
}

#[test]
fn file_that_cannot_be_decoded_ends_the_connection_and_not_the_server() {
    let errors = [
        PipelineError::OpenError,
        PipelineError::NoAudioStream,
        PipelineError::DecoderInitError,
        PipelineError::ResamplerInitError,
        PipelineError::ResampleError,
        PipelineError::PanicIsolationError,
        PipelineError::UnexpectedEvent,
    ];
    let mut s = listening(ByteOrder::LittleEndian);
    for error in errors {
        s = expect(s, ServerEvent::Completed, ServerAction::ReadLine, ServerPhase::ReadingRequest);
        s = expect(
            s,
            ServerEvent::Line(String::from("x.bin\n")),
            ServerAction::Decode(String::from("x.bin")),
            ServerPhase::Decoding,
        );
        s = expect(
            s,
            ServerEvent::DecodeFailed(error),
            ServerAction::Close(ConnectionEnd::DecodeFailed(error)),
            ServerPhase::Closing,
        );
        s = expect(s, ServerEvent::Completed, ServerAction::Accept, ServerPhase::Listening);
    }
    serve(s, "a.wav\n", vec![2], vec![2, 0], "a.wav");
}

#[test]
fn response_that_cannot_be_written_ends_the_connection_and_not_the_server() {
    let s = listening(ByteOrder::LittleEndian);
    let s = expect(s, ServerEvent::Completed, ServerAction::ReadLine, ServerPhase::ReadingRequest);
    let s = expect(
        s,
        ServerEvent::Line(String::from("a.wav\n")),
        ServerAction::Decode(String::from("a.wav")),
        ServerPhase::Decoding,
    );
    let s = expect(
        s,
        ServerEvent::Decoded(vec![5]),
        ServerAction::Respond(vec![5, 0]),
        ServerPhase::WritingResponse,
    );
    let s = expect(
        s,
        ServerEvent::Failed,
        ServerAction::Close(ConnectionEnd::WriteFailed),
        ServerPhase::Closing,
    );
    let s = expect(s, ServerEvent::Completed, ServerAction::Accept, ServerPhase::Listening);
    serve(s, "a.wav\n", vec![2], vec![2, 0], "a.wav");
}

#[test]
fn one_second_of_samples_is_answered_with_44100_bytes() {
    let s = listening(ByteOrder::LittleEndian);
    let s = expect(s, ServerEvent::Completed, ServerAction::ReadLine, ServerPhase::ReadingRequest);
    let (s, _) = go_on(s.step(ServerEvent::Line(String::from("second.wav\n"))));
    match s.step(ServerEvent::Decoded(vec![0; 22050])) {
        ServerStep::Continue(_, ServerAction::Respond(bytes)) => assert_eq!(bytes.len(), 44100),
        other => panic!("{:?}", other),
    }
}

#[test]
fn event_out_of_turn_stops_the_server() {
    let (server, _) = Server::start(ByteOrder::LittleEndian);
    assert_eq!(
        server.step(ServerEvent::Line(String::from("a.wav\n"))),
        ServerStep::Stop(ServerError::UnexpectedEvent)
    );
    let s = listening(ByteOrder::LittleEndian);
    assert_eq!(
        s.step(ServerEvent::AddressInUse),
        ServerStep::Stop(ServerError::UnexpectedEvent)
    );
    assert_eq!(
        s.step(ServerEvent::Decoded(vec![1])),
        ServerStep::Stop(ServerError::UnexpectedEvent)
    );
    let s = expect(s, ServerEvent::Completed, ServerAction::ReadLine, ServerPhase::ReadingRequest);
    assert_eq!(s.step(ServerEvent::Completed), ServerStep::Stop(ServerError::UnexpectedEvent));
    assert_eq!(
        s.step(ServerEvent::DecodeFailed(PipelineError::OpenError)),
        ServerStep::Stop(ServerError::UnexpectedEvent)
    );
}
