//! Connection dispatch: one decoded frame is matched against the fixed,
//! exhaustive set of handlers, and a whole connection is the fold of that
//! step over its inbound frames.
//!
//! The loop's states are implicit in the fold: each frame is read, decoded,
//! dispatched and responded to before the next one is looked at, so response
//! order matches request order. A decode error closes the connection and
//! surfaces to the owning supervisor; the save request is terminal: nothing
//! after it is dispatched.

use std::sync::Arc;

use vstd::prelude::*;

use crate::codec::DecodeError;
use crate::codec::lemma_parse_string_len;
use crate::protocol::EchoRequest;
use crate::protocol::EchoResponse;
use crate::protocol::RequestMessage;
use crate::protocol::RequestV;
use crate::protocol::ResponseMessage;
use crate::protocol::TestApiRequest;
use crate::protocol::decode_request;
use crate::protocol::encode_echo_response;
use crate::protocol::lemma_echo_response_round_trip;
use crate::protocol::lemma_request_round_trip;
use crate::protocol::spec_enc_echo_response;
use crate::protocol::spec_enc_request;
use crate::protocol::spec_parse_echo_response;
use crate::protocol::spec_parse_header;
use crate::protocol::spec_parse_request;
use crate::protocol::spec_request_header;
use crate::protocol::wf_request;

verus! {

/// Shared state handed to every handler of the diagnostic service. The
/// diagnostic handlers need none, so it is empty.
#[derive(Debug)]
pub struct TestContext {}

impl TestContext {
    /// Builds the shared context.
    pub fn new() -> TestContext {
        TestContext {}
    }
}

/// The context as it is shared across connection tasks.
pub type SharedTestContext = Arc<TestContext>;

/// The diagnostic service: echoes echo requests and treats save requests as
/// terminal.
#[derive(Debug)]
pub struct TestService {}

impl TestService {
    /// Builds the service.
    pub fn new() -> TestService {
        TestService {}
    }
}

/// A connection-fatal service error, surfaced to the owning supervisor.
#[derive(Debug, Clone, Copy, PartialEq, Eq, Structural)]
pub enum ServiceError {
    /// The inbound frame did not decode.
    Decode(DecodeError),
}

/// Handles one echo request: the response repeats the request's message
/// under the request's correlation id.
pub fn handle_echo_request(msg: RequestMessage<EchoRequest>) -> (r: Result<
    ResponseMessage<EchoResponse>,
    ServiceError,
>)
    ensures
        r matches Ok(resp) && resp.correlation_id == msg.header.correlation_id
            && resp.response.msg@ == msg.request.msg@,
{
    let response = EchoResponse { msg: msg.request.msg.clone() };
    Ok(msg.new_response(response))
}

/// What dispatching one frame does: a response frame to write back, the end
/// of the connection after a terminal request, or a connection-fatal decode
/// failure.
#[derive(Debug)]
pub enum DispatchOutcome {
    /// Write this response frame, then listen for the next frame.
    Respond(Vec<u8>),
    /// A terminal request: close the connection, sending no response.
    Terminate,
    /// A decode error: close the connection and surface the error.
    Fail(DecodeError),
}

/// Mathematical image of a dispatch outcome.
pub enum OutcomeV {
    Respond(Seq<u8>),
    Terminate,
    Fail(DecodeError),
}

impl View for DispatchOutcome {
    type V = OutcomeV;

    open spec fn view(&self) -> OutcomeV {
        match self {
            DispatchOutcome::Respond(out) => OutcomeV::Respond(out@),
            DispatchOutcome::Terminate => OutcomeV::Terminate,
            DispatchOutcome::Fail(e) => OutcomeV::Fail(*e),
        }
    }
}

/// What dispatching one frame yields: an echo request is answered with its
/// own message under its own correlation id, a save request ends the
/// connection, and a frame that does not decode fails the connection with
/// its decode error.
pub open spec fn spec_dispatch(frame: Seq<u8>) -> OutcomeV {
    match spec_parse_request(frame) {
        Ok(RequestV::Echo { header, msg }) => OutcomeV::Respond(
            spec_enc_echo_response(header.correlation_id, msg),
        ),
        Ok(RequestV::Save { header }) => OutcomeV::Terminate,
        Err(e) => OutcomeV::Fail(e),
    }
}

impl TestService {
    /// Decodes one frame, dispatches it to the matching handler, and encodes
    /// the handler's response.
    pub fn process_frame(&self, _context: &TestContext, frame: &Vec<u8>) -> (r: DispatchOutcome)
        ensures
            r@ == spec_dispatch(frame@),
    {
        match decode_request(frame) {
            Ok(TestApiRequest::EchoRequest(m)) => {
                proof {
                    lemma_parse_string_len(frame@, spec_parse_header(frame@, 0)->Ok_0.1);
                }
                match handle_echo_request(m) {
                    Ok(resp) => DispatchOutcome::Respond(encode_echo_response(&resp)),
                    Err(ServiceError::Decode(e)) => DispatchOutcome::Fail(e),
                }
            },
            Ok(TestApiRequest::SaveRequest(_m)) => DispatchOutcome::Terminate,
            Err(e) => DispatchOutcome::Fail(e),
        }
    }
}

/// How a connection ends: a clean end of stream, a terminal request, or a
/// connection-fatal decode error.
#[derive(Debug, Clone, Copy, PartialEq, Eq, Structural)]
pub enum SessionEnd {
    /// The inbound stream ended with no error.
    CleanEof,
    /// A terminal request ended the dispatch loop.
    Terminated,
    /// A decode error closed the connection.
    Failed(DecodeError),
}

/// The whole connection as a fold of the dispatch step: the response frames
/// written, in request order, and how the connection ended. Nothing after a
/// terminal or failing frame is dispatched.
pub open spec fn spec_session(frames: Seq<Seq<u8>>) -> (Seq<Seq<u8>>, SessionEnd)
    decreases frames.len(),
{
    if frames.len() == 0 {
        (Seq::empty(), SessionEnd::CleanEof)
    } else {
        match spec_dispatch(frames[0]) {
            OutcomeV::Respond(out) => {
                let (rest, end) = spec_session(frames.drop_first());
                (seq![out] + rest, end)
            },
            OutcomeV::Terminate => (Seq::empty(), SessionEnd::Terminated),
            OutcomeV::Fail(e) => (Seq::empty(), SessionEnd::Failed(e)),
        }
    }
}

impl TestService {
    /// Runs one connection over its inbound frames, in arrival order: each
    /// frame is dispatched and its response recorded before the next frame
    /// is looked at. Returns the response frames and how the connection
    /// ended. The transport that carries the frames and the responses
    /// belongs to the caller.
    pub fn respond(&self, _context: &TestContext, frames: &Vec<Vec<u8>>) -> (r: (
        Vec<Vec<u8>>,
        SessionEnd,
    ))
        ensures
            r.0.deep_view() == spec_session(frames.deep_view()).0,
            r.1 == spec_session(frames.deep_view()).1,
    {
        let ghost all: Seq<Seq<u8>> = frames.deep_view();
        let mut outs: Vec<Vec<u8>> = Vec::new();
        let n: usize = frames.len();
        let mut i: usize = 0;
        proof {
            assert(all.skip(0) =~= all);
            assert(outs.deep_view() =~= Seq::<Seq<u8>>::empty());
            assert(Seq::<Seq<u8>>::empty() + spec_session(all).0 =~= spec_session(all).0);
        }
        while i < n
            invariant
                n == frames@.len(),
                all == frames.deep_view(),
                i <= n,
                spec_session(all).0 == outs.deep_view() + spec_session(all.skip(i as int)).0,
                spec_session(all).1 == spec_session(all.skip(i as int)).1,
            decreases n - i,
        {
            proof {
                assert(all.skip(i as int)[0] == all[i as int]);
                assert(all[i as int] =~= frames@[i as int]@);
                assert(all.skip(i as int).drop_first() =~= all.skip(i as int + 1));
            }
            match self.process_frame(_context, &frames[i]) {
                DispatchOutcome::Respond(out) => {
                    let ghost pre: Seq<Seq<u8>> = outs.deep_view();
                    let ghost outv: Seq<u8> = out@;
                    outs.push(out);
                    proof {
                        assert(outs.deep_view() =~~= pre + seq![outv]);
                        assert((pre + seq![outv]) + spec_session(all.skip(i as int + 1)).0 =~= pre
                            + (seq![outv] + spec_session(all.skip(i as int + 1)).0));
                    }
                    i = i + 1;
                },
                DispatchOutcome::Terminate => {
                    proof {
                        assert(outs.deep_view() + spec_session(all.skip(i as int)).0
                            =~= outs.deep_view());
                    }
                    return (outs, SessionEnd::Terminated);
                },
                DispatchOutcome::Fail(e) => {
                    proof {
                        assert(outs.deep_view() + spec_session(all.skip(i as int)).0
                            =~= outs.deep_view());
                    }
                    return (outs, SessionEnd::Failed(e));
                },
            }
        }
        proof {
            assert(all.skip(n as int) =~= Seq::<Seq<u8>>::empty());
            assert(outs.deep_view() + Seq::<Seq<u8>>::empty() =~= outs.deep_view());
        }
        (outs, SessionEnd::CleanEof)
    }
}

/// Dispatching the frame of a valid echo request answers it: the response
/// frame decodes to the request's own correlation id and its own message.
pub proof fn lemma_echo_answered(r: RequestV)
    requires
        wf_request(r),
        r is Echo,
    ensures
        spec_dispatch(spec_enc_request(r)) == OutcomeV::Respond(
            spec_enc_echo_response(spec_request_header(r).correlation_id, r->Echo_msg),
        ),
        spec_parse_echo_response(
            spec_enc_echo_response(spec_request_header(r).correlation_id, r->Echo_msg),
        ) == Ok::<_, DecodeError>((spec_request_header(r).correlation_id, r->Echo_msg)),
{
    lemma_request_round_trip(r);
    lemma_echo_response_round_trip(spec_request_header(r).correlation_id, r->Echo_msg);
}

/// A terminal request ends the session: if every frame before position `i`
/// is answered and frame `i` is terminal, the session ends `Terminated`,
/// exactly the first `i` frames are answered, and no later frame is
/// dispatched.
pub proof fn lemma_terminal_stops_session(frames: Seq<Seq<u8>>, i: int)
    requires
        0 <= i < frames.len(),
        forall|j: int| 0 <= j < i ==> #[trigger] spec_dispatch(frames[j]) is Respond,
        spec_dispatch(frames[i]) is Terminate,
    ensures
        spec_session(frames).1 == SessionEnd::Terminated,
        spec_session(frames).0.len() == i,
    decreases i,
{
    if i == 0 {
    } else {
        assert(spec_dispatch(frames[0]) is Respond);
        assert forall|j: int| 0 <= j < i - 1 implies #[trigger] spec_dispatch(
            frames.drop_first()[j],
        ) is Respond by {
            assert(frames.drop_first()[j] == frames[j + 1]);
        }
        assert(frames.drop_first()[i - 1] == frames[i]);
        lemma_terminal_stops_session(frames.drop_first(), i - 1);
    }
}


/// The per-connection state machine, made explicit: a connection listens
/// until an event closes it, and a closed connection stays closed.
#[derive(Debug, Clone, Copy, PartialEq, Eq, Structural)]
pub enum ConnState {
    /// Waiting for the next complete frame.
    Listening,
    /// The terminal state, carrying how the connection ended.
    Closed(SessionEnd),
}

/// One inbound event of a connection: a complete frame, or the clean end of
/// the stream.
#[derive(Debug)]
pub enum ConnEvent {
    Frame(Vec<u8>),
    StreamEnd,
}

/// Mathematical image of a connection event.
pub enum EventV {
    Frame(Seq<u8>),
    StreamEnd,
}

impl View for ConnEvent {
    type V = EventV;

    open spec fn view(&self) -> EventV {
        match self {
            ConnEvent::Frame(f) => EventV::Frame(f@),
            ConnEvent::StreamEnd => EventV::StreamEnd,
        }
    }
}

/// One transition of the state machine: a listening connection dispatches a
/// frame and either responds and listens again, or closes; the end of the
/// stream closes it cleanly; a closed connection ignores every event and
/// never responds.
pub open spec fn spec_step(state: ConnState, event: EventV) -> (ConnState, Option<Seq<u8>>) {
    match state {
        ConnState::Listening => match event {
            EventV::Frame(f) => match spec_dispatch(f) {
                OutcomeV::Respond(out) => (ConnState::Listening, Some(out)),
                OutcomeV::Terminate => (ConnState::Closed(SessionEnd::Terminated), None),
                OutcomeV::Fail(e) => (ConnState::Closed(SessionEnd::Failed(e)), None),
            },
            EventV::StreamEnd => (ConnState::Closed(SessionEnd::CleanEof), None),
        },
        ConnState::Closed(end) => (ConnState::Closed(end), None),
    }
}

impl TestService {
    /// Performs one transition of the per-connection state machine and
    /// returns the new state with the response frame to write, if any.
    pub fn step(&self, _context: &TestContext, state: ConnState, event: ConnEvent) -> (r: (
        ConnState,
        Option<Vec<u8>>,
    ))
        ensures
            r.0 == spec_step(state, event@).0,
            (match r.1 {
                Some(out) => spec_step(state, event@).1 == Some(out@),
                None => spec_step(state, event@).1 is None,
            }),
    {
        match state {
            ConnState::Listening => match event {
                ConnEvent::Frame(f) => match self.process_frame(_context, &f) {
                    DispatchOutcome::Respond(out) => (ConnState::Listening, Some(out)),
                    DispatchOutcome::Terminate => (
                        ConnState::Closed(SessionEnd::Terminated),
                        None,
                    ),
                    DispatchOutcome::Fail(e) => (ConnState::Closed(SessionEnd::Failed(e)), None),
                },
                ConnEvent::StreamEnd => (ConnState::Closed(SessionEnd::CleanEof), None),
            },
            ConnState::Closed(end) => (ConnState::Closed(end), None),
        }
    }
}

/// A closed connection is closed for good: no event changes its state or
/// draws a response out of it.
pub proof fn lemma_closed_is_absorbing(end: SessionEnd, event: EventV)
    ensures
        spec_step(ConnState::Closed(end), event) == (
            ConnState::Closed(end),
            Option::<Seq<u8>>::None,
        ),
{
}


/// Iterating the state machine over a connection's frames: the state after
/// all of them, and the responses written on the way.
pub open spec fn spec_run(state: ConnState, frames: Seq<Seq<u8>>) -> (ConnState, Seq<Seq<u8>>)
    decreases frames.len(),
{
    if frames.len() == 0 {
        (state, Seq::empty())
    } else {
        let first = spec_step(state, EventV::Frame(frames[0]));
        let rest = spec_run(first.0, frames.drop_first());
        match first.1 {
            Some(out) => (rest.0, seq![out] + rest.1),
            None => rest,
        }
    }
}

/// A closed connection stays closed under any run and writes nothing.
pub proof fn lemma_run_from_closed(end: SessionEnd, frames: Seq<Seq<u8>>)
    ensures
        spec_run(ConnState::Closed(end), frames) == (
            ConnState::Closed(end),
            Seq::<Seq<u8>>::empty(),
        ),
    decreases frames.len(),
{
    if frames.len() != 0 {
        lemma_run_from_closed(end, frames.drop_first());
    }
}

/// The session fold and the explicit state machine agree: run over a
/// connection's frames from the listening state, the machine writes exactly
/// the session's responses, and it ends listening when the stream was
/// simply exhausted, else closed with the session's end.
pub proof fn lemma_run_matches_session(frames: Seq<Seq<u8>>)
    ensures
        spec_run(ConnState::Listening, frames).1 == spec_session(frames).0,
        spec_session(frames).1 == SessionEnd::CleanEof ==> spec_run(
            ConnState::Listening,
            frames,
        ).0 == ConnState::Listening,
        spec_session(frames).1 != SessionEnd::CleanEof ==> spec_run(
            ConnState::Listening,
            frames,
        ).0 == ConnState::Closed(spec_session(frames).1),
    decreases frames.len(),
{
    if frames.len() != 0 {
        match spec_dispatch(frames[0]) {
            OutcomeV::Respond(out) => {
                lemma_run_matches_session(frames.drop_first());
            },
            OutcomeV::Terminate => {
                lemma_run_from_closed(SessionEnd::Terminated, frames.drop_first());
            },
            OutcomeV::Fail(e) => {
                lemma_run_from_closed(SessionEnd::Failed(e), frames.drop_first());
            },
        }
    }
}

} // verus!
