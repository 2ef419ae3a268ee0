//! One streamed completion: the events of a connection, taken one at a time
//! and in their order, until the stream ends, fails or is cancelled.

use crate::anthrophic_chat::{
    blank, finished, folded, merged, AnthropicChatCompletion, AnthropicChatCompletionDelta, Block,
    Completion, Fragment,
};
use crate::envelope::{decode_response, outcome_of_text};
use crate::error::{ErrorPayload, OpenAiError};
use crate::json::same_text;
use vstd::prelude::*;

verus! {

/// Where a session stands.
#[derive(Debug, Clone, Copy, PartialEq, Eq, Structural)]
pub enum StreamState {
    /// Connected; no event was taken yet.
    Open,
    /// At least one event was folded in.
    Accumulating,
    /// The stream ended and the completion was handed out.
    Completed,
    /// An event could not be decoded, or the connection broke.
    Failed,
    /// The caller ended the session early.
    Cancelled,
}

impl StreamState {
    /// Whether nothing can follow this state.
    pub open spec fn is_terminal(self) -> bool {
        self is Completed || self is Failed || self is Cancelled
    }

    /// Whether nothing can follow this state.
    pub fn terminal(&self) -> (r: bool)
        ensures
            r == self.is_terminal(),
    {
        match self {
            StreamState::Open => false,
            StreamState::Accumulating => false,
            _ => true,
        }
    }
}

/// What the connection hands over.
#[derive(Debug, Clone, PartialEq, Eq)]
pub enum StreamEvent {
    /// One server-sent event: its name and its data.
    Message { event: String, data: String },
    /// The provider ended the stream, or closed the connection in order.
    End,
    /// The connection broke; the text says how.
    TransportError(String),
    /// The caller asks to end the session.
    Cancel,
}

/// An event after decoding.
#[derive(Debug, Clone, PartialEq, Eq)]
pub enum Frame {
    /// A partial completion.
    Delta(AnthropicChatCompletionDelta),
    /// An event that could not be used, with the reason.
    Broken(OpenAiError),
    /// The end of the stream.
    End,
    /// The caller's request to end the session.
    Cancel,
}

/// What the owner of the connection does next.
#[derive(Debug, Clone, PartialEq, Eq)]
pub enum StreamAction {
    /// Wait for the next event.
    Wait,
    /// Hand the finished completion to the caller; the session is over.
    Deliver(AnthropicChatCompletion),
    /// Report the error to the caller; the session is over.
    Fail(OpenAiError),
    /// Close the connection and drop what is buffered; the session is over.
    Close,
    /// The session was over already: the event is dropped.
    Stop,
}

/// A decoded event as a mathematical value.
pub enum Input {
    Delta(Completion<Fragment>),
    Broken(ErrorPayload),
    End,
    Cancel,
}

/// An action as a mathematical value.
pub enum Output {
    Wait,
    Deliver(Completion<Block>),
    Fail(ErrorPayload),
    Close,
    Stop,
}

/// A session as a mathematical value: its state and what it has accumulated.
pub struct Session {
    pub state: StreamState,
    pub accumulated: Completion<Fragment>,
}

impl View for Frame {
    type V = Input;

    open spec fn view(&self) -> Input {
        match self {
            Frame::Delta(delta) => Input::Delta(delta@),
            Frame::Broken(error) => Input::Broken(error@),
            Frame::End => Input::End,
            Frame::Cancel => Input::Cancel,
        }
    }
}

impl View for StreamAction {
    type V = Output;

    open spec fn view(&self) -> Output {
        match self {
            StreamAction::Wait => Output::Wait,
            StreamAction::Deliver(completion) => Output::Deliver(completion@),
            StreamAction::Fail(error) => Output::Fail(error@),
            StreamAction::Close => Output::Close,
            StreamAction::Stop => Output::Stop,
        }
    }
}

/// The error for a connection that broke.
pub open spec fn transport_payload(message: Seq<char>) -> ErrorPayload {
    ErrorPayload { message, error_type: "stream_error"@, param: None, code: None }
}

/// Whether a server-sent event says that the stream is over: the second
/// provider names its last event `message_stop`, the first sends the data
/// `[DONE]`.
pub open spec fn is_last(event: Seq<char>, data: Seq<char>) -> bool {
    event == "message_stop"@ || data == "[DONE]"@
}

/// What an event decodes to. The data of a server-sent event that is not the
/// last is read as a response body whose payload is a partial completion.
pub open spec fn decoded_event(event: StreamEvent) -> Input {
    match event {
        StreamEvent::Message { event, data } => if is_last(event@, data@) {
            Input::End
        } else {
            match outcome_of_text::<AnthropicChatCompletionDelta>(data@) {
                Ok(delta) => Input::Delta(delta),
                Err(error) => Input::Broken(error),
            }
        },
        StreamEvent::End => Input::End,
        StreamEvent::TransportError(message) => Input::Broken(transport_payload(message@)),
        StreamEvent::Cancel => Input::Cancel,
    }
}

/// A session that is over, with nothing left in it.
pub open spec fn ended(state: StreamState) -> Session {
    Session { state, accumulated: blank() }
}

/// One step of a session: the session after a decoded event, and the action
/// that the event calls for. A session that is over drops every event. A
/// session that is not folds a partial completion in and waits, hands the
/// finished completion out at the end of the stream, reports the error of a
/// broken event, and closes on the caller's request; in the last three cases
/// it is over and keeps nothing.
pub open spec fn next(session: Session, input: Input) -> (Session, Output) {
    if session.state.is_terminal() {
        (session, Output::Stop)
    } else {
        match input {
            Input::Delta(delta) => (
                Session {
                    state: StreamState::Accumulating,
                    accumulated: merged(session.accumulated, delta),
                },
                Output::Wait,
            ),
            Input::Broken(error) => (ended(StreamState::Failed), Output::Fail(error)),
            Input::End => (
                ended(StreamState::Completed),
                Output::Deliver(finished(session.accumulated)),
            ),
            Input::Cancel => (ended(StreamState::Cancelled), Output::Close),
        }
    }
}

/// The session after a run of decoded events.
pub open spec fn after(session: Session, inputs: Seq<Input>) -> Session
    decreases inputs.len(),
{
    if inputs.len() == 0 {
        session
    } else {
        next(after(session, inputs.drop_last()), inputs.last()).0
    }
}

/// A run of partial completions as a run of decoded events.
pub open spec fn deltas(events: Seq<Completion<Fragment>>) -> Seq<Input> {
    Seq::new(events.len(), |i: int| Input::Delta(events[i]))
}

/// A session that has just been opened.
pub open spec fn opened() -> Session {
    Session { state: StreamState::Open, accumulated: blank() }
}

/// One streamed completion in the making. The session alone holds what has
/// been accumulated, and hands it out only as the finished completion.
pub struct StreamingSession {
    state: StreamState,
    accumulator: AnthropicChatCompletionDelta,
}

impl View for StreamingSession {
    type V = Session;

    closed spec fn view(&self) -> Session {
        Session { state: self.state, accumulated: self.accumulator@ }
    }
}

impl StreamingSession {
    /// A session for a connection that has just been opened.
    pub fn new() -> (r: StreamingSession)
        ensures
            r@ == opened(),
    {
        StreamingSession {
            state: StreamState::Open,
            accumulator: AnthropicChatCompletionDelta::empty(),
        }
    }

    /// Where the session stands.
    pub fn state(&self) -> (r: StreamState)
        ensures
            r == self@.state,
    {
        self.state
    }

    /// Decodes an event.
    pub fn decode(event: StreamEvent) -> (r: Frame)
        ensures
            r@ == decoded_event(event),
    {
        match event {
            StreamEvent::Message { event, data } => {
                if same_text(event.as_str(), "message_stop") || same_text(data.as_str(), "[DONE]") {
                    Frame::End
                } else {
                    match decode_response::<AnthropicChatCompletionDelta>(data.as_str()) {
                        Ok(delta) => Frame::Delta(delta),
                        Err(error) => Frame::Broken(error),
                    }
                }
            },
            StreamEvent::End => Frame::End,
            StreamEvent::TransportError(message) => Frame::Broken(
                OpenAiError::new(message, String::from_str("stream_error")),
            ),
            StreamEvent::Cancel => Frame::Cancel,
        }
    }

    /// Takes one decoded event.
    pub fn advance(&mut self, frame: Frame) -> (r: StreamAction)
        ensures
            (final(self)@, r@) == next(old(self)@, frame@),
    {
        if self.state.terminal() {
            return StreamAction::Stop;
        }
        match frame {
            Frame::Delta(delta) => {
                self.accumulator.merge(delta);
                self.state = StreamState::Accumulating;
                StreamAction::Wait
            },
            Frame::Broken(error) => {
                self.accumulator = AnthropicChatCompletionDelta::empty();
                self.state = StreamState::Failed;
                StreamAction::Fail(error)
            },
            Frame::End => {
                let mut done = AnthropicChatCompletionDelta::empty();
                std::mem::swap(&mut self.accumulator, &mut done);
                self.state = StreamState::Completed;
                StreamAction::Deliver(done.finish())
            },
            Frame::Cancel => {
                self.accumulator = AnthropicChatCompletionDelta::empty();
                self.state = StreamState::Cancelled;
                StreamAction::Close
            },
        }
    }

    /// Takes one event as the connection hands it over.
    pub fn step(&mut self, event: StreamEvent) -> (r: StreamAction)
        ensures
            (final(self)@, r@) == next(old(self)@, decoded_event(event)),
    {
        let frame = Self::decode(event);
        self.advance(frame)
    }
}

/// A session that is over stays as it is, whatever comes.
pub proof fn lemma_over_is_over(session: Session, input: Input)
    requires
        session.state.is_terminal(),
    ensures
        next(session, input) == (session, Output::Stop),
{
}

/// Only the end of the stream hands a completion out, and only from a
/// session that is not over; a session that fails or is cancelled keeps
/// nothing of what it had accumulated.
pub proof fn lemma_all_or_nothing(session: Session, input: Input)
    ensures
        next(session, input).1 is Deliver ==> input is End && !session.state.is_terminal(),
        !session.state.is_terminal() && (input is Broken || input is Cancel) ==> next(
            session,
            input,
        ).0.accumulated == blank(),
{
}

/// A session that takes a run of partial completions has folded them in
/// their order.
pub proof fn lemma_after_deltas(session: Session, events: Seq<Completion<Fragment>>)
    requires
        !session.state.is_terminal(),
    ensures
        after(session, deltas(events)).accumulated == folded(session.accumulated, events),
        !after(session, deltas(events)).state.is_terminal(),
        events.len() > 0 ==> after(session, deltas(events)).state is Accumulating,
    decreases events.len(),
{
    if events.len() > 0 {
        lemma_after_deltas(session, events.drop_last());
        assert(deltas(events).drop_last() =~= deltas(events.drop_last()));
        assert(deltas(events).last() == Input::Delta(events.last()));
    }
}

/// A new session that takes a run of partial completions and then the end of
/// the stream hands out the finished fold of the run, and is completed.
pub proof fn lemma_stream_delivers_fold(events: Seq<Completion<Fragment>>)
    ensures
        next(after(opened(), deltas(events)), Input::End) == (
            ended(StreamState::Completed),
            Output::Deliver(finished(folded(blank(), events))),
        ),
{
    lemma_after_deltas(opened(), events);
}

} // verus!
