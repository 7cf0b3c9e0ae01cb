//! The life of one call, from the connector's answer to the last response frame.
//!
//! A handler task owns one [`CallState`]. It reports what the connector, the
//! response stream and the outbound track did, and performs what [`CallState::step`]
//! answers: write a frame, abort the track with a code, wait, or stop. The
//! hook that watches the request stream reports an undecodable frame through
//! [`CallState::decode_failed`]. Of all aborts that a call asks for, only the
//! first reaches the track.

use crate::outbound::{fresh_abort, latched, AbortLatch};
use crate::wire::RpcWireError;
use vstd::prelude::*;

verus! {

/// Where a call stands.
#[derive(Debug, Clone, Copy, PartialEq, Eq, Structural)]
pub enum CallPhase {
    /// The connector has been invoked and has not answered yet.
    Connecting,
    /// The response stream is open and the next item is awaited.
    Streaming,
    /// A response was handed out for writing and its outcome is awaited.
    Sending,
    /// The call is over.
    Finished,
}

/// What the handler task observed.
#[derive(Debug, Clone, PartialEq, Eq)]
pub enum CallEvent<M> {
    /// The connector returned a response stream.
    Connected,
    /// The connector returned an error.
    ConnectFailed,
    /// The response stream produced a message.
    Response(M),
    /// The response stream produced an error.
    ResponseFailed,
    /// The response stream ended.
    ResponseEnded,
    /// The outbound track took the frame.
    Sent,
    /// The message could not be written as a frame.
    SendFailed,
}

/// What the handler task does next.
#[derive(Debug, Clone, PartialEq, Eq)]
pub enum Directive<M> {
    /// Wait for the connector's answer.
    AwaitConnector,
    /// Wait for the next item of the response stream.
    AwaitResponse,
    /// Write this message as one frame, then report `Sent` or `SendFailed`.
    Send(M),
    /// Report the outcome of the write in progress.
    AwaitSend,
    /// Leave the task; this releases the session and the response broadcast.
    Stop,
}

/// The answer to one event.
#[derive(Debug, Clone, PartialEq, Eq)]
pub struct CallStep<M> {
    /// The code to abort the outbound track with, now, if any.
    pub abort: Option<u32>,
    /// What to do after that.
    pub next: Directive<M>,
}

/// The state of a call as contracts see it.
pub struct CallModel {
    /// Where the call stands.
    pub phase: CallPhase,
    /// The code of the abort that reached the track, if one did.
    pub aborted: Option<u32>,
}

/// The state of one call.
#[derive(Debug)]
pub struct CallState {
    phase: CallPhase,
    latch: AbortLatch,
}

/// The directive that repeats what a phase was waiting for.
pub open spec fn resume<M>(phase: CallPhase) -> Directive<M> {
    match phase {
        CallPhase::Connecting => Directive::AwaitConnector,
        CallPhase::Streaming => Directive::AwaitResponse,
        CallPhase::Sending => Directive::AwaitSend,
        CallPhase::Finished => Directive::Stop,
    }
}

/// Ends the call in state `s` with a failure of the given code.
pub open spec fn fail_with<M>(s: CallModel, code: u32) -> (CallModel, CallStep<M>) {
    (
        CallModel { phase: CallPhase::Finished, aborted: latched(s.aborted, code) },
        CallStep { abort: fresh_abort(s.aborted, code), next: Directive::Stop },
    )
}

/// The state after `event` and the answer to it.
///
/// A connector failure and a failed response item end the call with the
/// backend's code, a failed write with the internal code, the end of the
/// response stream without any abort. A message is handed out for writing
/// unless the track was aborted before, in which case the call ends. An event
/// that the phase does not wait for changes nothing.
pub open spec fn spec_step<M>(s: CallModel, event: CallEvent<M>) -> (CallModel, CallStep<M>) {
    match (s.phase, event) {
        (CallPhase::Connecting, CallEvent::Connected) => (
            CallModel { phase: CallPhase::Streaming, aborted: s.aborted },
            CallStep { abort: None, next: Directive::AwaitResponse },
        ),
        (CallPhase::Connecting, CallEvent::ConnectFailed) => fail_with(s, RpcWireError::CODE_GRPC),
        (CallPhase::Streaming, CallEvent::Response(m)) => if s.aborted is Some {
            (
                CallModel { phase: CallPhase::Finished, aborted: s.aborted },
                CallStep { abort: None, next: Directive::Stop },
            )
        } else {
            (
                CallModel { phase: CallPhase::Sending, aborted: s.aborted },
                CallStep { abort: None, next: Directive::Send(m) },
            )
        },
        (CallPhase::Streaming, CallEvent::ResponseFailed) => fail_with(s, RpcWireError::CODE_GRPC),
        (CallPhase::Streaming, CallEvent::ResponseEnded) => (
            CallModel { phase: CallPhase::Finished, aborted: s.aborted },
            CallStep { abort: None, next: Directive::Stop },
        ),
        (CallPhase::Sending, CallEvent::Sent) => (
            CallModel { phase: CallPhase::Streaming, aborted: s.aborted },
            CallStep { abort: None, next: Directive::AwaitResponse },
        ),
        (CallPhase::Sending, CallEvent::SendFailed) => fail_with(s, RpcWireError::CODE_INTERNAL),
        _ => (s, CallStep { abort: None, next: resume(s.phase) }),
    }
}

/// The state after an undecodable request frame, and the abort to perform:
/// the decode code, unless the call is over or an abort reached the track before.
pub open spec fn spec_decode_failed(s: CallModel) -> (CallModel, Option<u32>) {
    if s.phase == CallPhase::Finished {
        (s, None)
    } else {
        (
            CallModel { phase: s.phase, aborted: latched(s.aborted, RpcWireError::CODE_DECODE) },
            fresh_abort(s.aborted, RpcWireError::CODE_DECODE),
        )
    }
}

impl View for CallState {
    type V = CallModel;

    closed spec fn view(&self) -> CallModel {
        CallModel { phase: self.phase, aborted: self.latch@ }
    }
}

impl CallState {
    /// The state of a call whose connector has just been invoked.
    pub fn new() -> (r: Self)
        ensures
            r@ == (CallModel { phase: CallPhase::Connecting, aborted: None }),
    {
        CallState { phase: CallPhase::Connecting, latch: AbortLatch::new() }
    }

    /// Where the call stands.
    pub fn phase(&self) -> (r: CallPhase)
        ensures
            r == self@.phase,
    {
        self.phase
    }

    /// The code of the abort that reached the track, if one did.
    pub fn abort_code(&self) -> (r: Option<u32>)
        ensures
            r == self@.aborted,
    {
        self.latch.code()
    }

    /// True once the call is over.
    pub fn is_finished(&self) -> (r: bool)
        ensures
            r == (self@.phase == CallPhase::Finished),
    {
        match self.phase {
            CallPhase::Finished => true,
            _ => false,
        }
    }

    /// Ends the call with a failure of the given code.
    fn fail<M>(&mut self, code: u32) -> (r: CallStep<M>)
        ensures
            (final(self)@, r) == fail_with::<M>(old(self)@, code),
    {
        let abort = self.latch.abort(code);
        self.phase = CallPhase::Finished;
        CallStep { abort, next: Directive::Stop }
    }

    /// The directive that repeats what the current phase is waiting for.
    fn resume<M>(&self) -> (r: Directive<M>)
        ensures
            r == resume::<M>(self@.phase),
    {
        match self.phase {
            CallPhase::Connecting => Directive::AwaitConnector,
            CallPhase::Streaming => Directive::AwaitResponse,
            CallPhase::Sending => Directive::AwaitSend,
            CallPhase::Finished => Directive::Stop,
        }
    }

    /// Takes one event of the handler task and answers with what to do.
    pub fn step<M>(&mut self, event: CallEvent<M>) -> (r: CallStep<M>)
        ensures
            (final(self)@, r) == spec_step(old(self)@, event),
    {
        match self.phase {
            CallPhase::Connecting => match event {
                CallEvent::Connected => {
                    self.phase = CallPhase::Streaming;
                    CallStep { abort: None, next: Directive::AwaitResponse }
                },
                CallEvent::ConnectFailed => self.fail(RpcWireError::CODE_GRPC),
                _ => CallStep { abort: None, next: self.resume() },
            },
            CallPhase::Streaming => match event {
                CallEvent::Response(m) => {
                    if !self.latch.is_open() {
                        self.phase = CallPhase::Finished;
                        CallStep { abort: None, next: Directive::Stop }
                    } else {
                        self.phase = CallPhase::Sending;
                        CallStep { abort: None, next: Directive::Send(m) }
                    }
                },
                CallEvent::ResponseFailed => self.fail(RpcWireError::CODE_GRPC),
                CallEvent::ResponseEnded => {
                    self.phase = CallPhase::Finished;
                    CallStep { abort: None, next: Directive::Stop }
                },
                _ => CallStep { abort: None, next: self.resume() },
            },
            CallPhase::Sending => match event {
                CallEvent::Sent => {
                    self.phase = CallPhase::Streaming;
                    CallStep { abort: None, next: Directive::AwaitResponse }
                },
                CallEvent::SendFailed => self.fail(RpcWireError::CODE_INTERNAL),
                _ => CallStep { abort: None, next: self.resume() },
            },
            CallPhase::Finished => CallStep { abort: None, next: Directive::Stop },
        }
    }

    /// Takes the report of an undecodable request frame and returns the abort
    /// to perform on the outbound track, if any.
    pub fn decode_failed(&mut self) -> (r: Option<u32>)
        ensures
            (final(self)@, r) == spec_decode_failed(old(self)@),
    {
        match self.phase {
            CallPhase::Finished => None,
            _ => self.latch.abort(RpcWireError::CODE_DECODE),
        }
    }
}

/// One item of a connector's response stream.
pub enum ResponseItem<M> {
    /// A response message.
    Message(M),
    /// An error of the backend.
    Failure,
}

/// What a peer saw of a call: the frames it received, in order, and the code
/// the response track was aborted with, if it was.
pub struct CallOutcome<M> {
    /// The response frames that the track took.
    pub frames: Seq<M>,
    /// The code of the abort, or none after a clean close.
    pub abort: Option<u32>,
}

/// The event that reports item `i` of a response stream; the end of the
/// stream where the items are used up.
pub open spec fn item_event<M>(items: Seq<ResponseItem<M>>, i: int) -> CallEvent<M> {
    if 0 <= i < items.len() {
        match items[i] {
            ResponseItem::Message(m) => CallEvent::Response(m),
            ResponseItem::Failure => CallEvent::ResponseFailed,
        }
    } else {
        CallEvent::ResponseEnded
    }
}

/// A handler task from item `i` on, in state `s`: it reports each item,
/// writes what it is told to write and reports whether write `j` was
/// accepted (`accepts(j)`), until it is told to stop. The request hook
/// reports an undecodable frame just before item `hook_at`.
pub open spec fn drive<M>(
    s: CallModel,
    items: Seq<ResponseItem<M>>,
    accepts: spec_fn(int) -> bool,
    hook_at: int,
    i: int,
) -> CallOutcome<M>
    decreases items.len() - i,
{
    let s0 = if i == hook_at {
        spec_decode_failed(s).0
    } else {
        s
    };
    let (s1, answer) = spec_step(s0, item_event(items, i));
    match answer.next {
        Directive::Send(m) => {
            if accepts(i) {
                let (s2, after) = spec_step(s1, CallEvent::<M>::Sent);
                if after.next == Directive::<M>::AwaitResponse && i < items.len() {
                    let rest = drive(s2, items, accepts, hook_at, i + 1);
                    CallOutcome { frames: seq![m] + rest.frames, abort: rest.abort }
                } else {
                    CallOutcome { frames: seq![m], abort: s2.aborted }
                }
            } else {
                CallOutcome {
                    frames: Seq::empty(),
                    abort: spec_step(s1, CallEvent::<M>::SendFailed).0.aborted,
                }
            }
        },
        Directive::AwaitResponse => {
            if i < items.len() {
                drive(s1, items, accepts, hook_at, i + 1)
            } else {
                CallOutcome { frames: Seq::empty(), abort: s1.aborted }
            }
        },
        _ => CallOutcome { frames: Seq::empty(), abort: s1.aborted },
    }
}

/// A whole call as its handler task runs it: the connector answers, then the
/// response stream is drained.
pub open spec fn run_call<M>(
    connected: bool,
    items: Seq<ResponseItem<M>>,
    accepts: spec_fn(int) -> bool,
    hook_at: int,
) -> CallOutcome<M> {
    let start = CallModel { phase: CallPhase::Connecting, aborted: None };
    let s0 = if hook_at < 0 {
        spec_decode_failed(start).0
    } else {
        start
    };
    if connected {
        drive(spec_step(s0, CallEvent::<M>::Connected).0, items, accepts, hook_at, 0)
    } else {
        CallOutcome {
            frames: Seq::empty(),
            abort: spec_step(s0, CallEvent::<M>::ConnectFailed).0.aborted,
        }
    }
}

/// True where the call cannot go past item `k`: the items are used up, item
/// `k` is an error, its write is refused, or an undecodable request frame
/// was reported before it.
pub open spec fn stops_at<M>(
    items: Seq<ResponseItem<M>>,
    accepts: spec_fn(int) -> bool,
    hook_at: int,
    k: int,
) -> bool {
    ||| k >= items.len()
    ||| items[k] is Failure
    ||| !accepts(k)
    ||| hook_at <= k
}

/// The first item at or after `i` that the call cannot go past.
pub open spec fn first_stop<M>(
    items: Seq<ResponseItem<M>>,
    accepts: spec_fn(int) -> bool,
    hook_at: int,
    i: int,
) -> int
    decreases items.len() - i,
{
    if stops_at(items, accepts, hook_at, i) {
        i
    } else {
        first_stop(items, accepts, hook_at, i + 1)
    }
}

/// The messages of items `from` up to, not including, `to`.
pub open spec fn messages_between<M>(items: Seq<ResponseItem<M>>, from: int, to: int) -> Seq<M>
    decreases to - from,
{
    if from >= to || from < 0 || from >= items.len() {
        Seq::empty()
    } else {
        match items[from] {
            ResponseItem::Message(m) => seq![m] + messages_between(items, from + 1, to),
            ResponseItem::Failure => messages_between(items, from + 1, to),
        }
    }
}

/// The code that the track is aborted with when the call stops at item `k`:
/// the decode code where an undecodable request frame came first, none at
/// the clean end of the stream, the backend's code for an error item, the
/// internal code for a refused write.
pub open spec fn stop_code<M>(
    items: Seq<ResponseItem<M>>,
    accepts: spec_fn(int) -> bool,
    hook_at: int,
    k: int,
) -> Option<u32> {
    if hook_at <= k {
        Some(RpcWireError::CODE_DECODE)
    } else if k >= items.len() {
        None
    } else if items[k] is Failure {
        Some(RpcWireError::CODE_GRPC)
    } else {
        Some(RpcWireError::CODE_INTERNAL)
    }
}

/// The first stop at or after `i` is a stop, and the call can go past
/// every item between `i` and it: each is a message whose write is accepted,
/// and no undecodable request frame was reported before it.
pub proof fn lemma_first_stop<M>(
    items: Seq<ResponseItem<M>>,
    accepts: spec_fn(int) -> bool,
    hook_at: int,
    i: int,
)
    requires
        0 <= i <= items.len(),
    ensures
        i <= first_stop(items, accepts, hook_at, i) <= items.len(),
        stops_at(items, accepts, hook_at, first_stop(items, accepts, hook_at, i)),
        forall|j: int|
            i <= j < first_stop(items, accepts, hook_at, i) ==> !stops_at(
                items,
                accepts,
                hook_at,
                j,
            ),
    decreases items.len() - i,
{
    if !stops_at(items, accepts, hook_at, i) {
        lemma_first_stop(items, accepts, hook_at, i + 1);
    }
}

/// From item `i` on, a call that has not been aborted delivers the messages
/// up to its first stop and ends with that stop's code.
pub proof fn lemma_drive_delivers_prefix<M>(
    s: CallModel,
    items: Seq<ResponseItem<M>>,
    accepts: spec_fn(int) -> bool,
    hook_at: int,
    i: int,
)
    requires
        0 <= i <= items.len(),
        s.phase == CallPhase::Streaming,
        s.aborted is None,
        i <= hook_at,
    ensures
        ({
            let k = first_stop(items, accepts, hook_at, i);
            &&& i <= k <= items.len()
            &&& drive(s, items, accepts, hook_at, i).frames == messages_between(items, i, k)
            &&& drive(s, items, accepts, hook_at, i).abort == stop_code(items, accepts, hook_at, k)
        }),
    decreases items.len() - i,
{
    if !stops_at(items, accepts, hook_at, i) {
        let s2 = spec_step(spec_step(s, item_event(items, i)).0, CallEvent::<M>::Sent).0;
        lemma_drive_delivers_prefix(s2, items, accepts, hook_at, i + 1);
    }
}

/// The frames that a peer receives are the messages that the connector
/// produced before the first abort, in the order it produced them, and the
/// code it sees is that of the first failure. A call whose connector fails
/// delivers nothing and is aborted with the backend's code, or with the
/// decode code where an undecodable request frame came first.
pub proof fn lemma_call_delivers_prefix<M>(
    connected: bool,
    items: Seq<ResponseItem<M>>,
    accepts: spec_fn(int) -> bool,
    hook_at: int,
)
    ensures
        ({
            let out = run_call(connected, items, accepts, hook_at);
            let k = first_stop(items, accepts, hook_at, 0);
            if hook_at < 0 {
                out.frames == Seq::<M>::empty() && out.abort == Some(RpcWireError::CODE_DECODE)
            } else if !connected {
                out.frames == Seq::<M>::empty() && out.abort == Some(RpcWireError::CODE_GRPC)
            } else {
                &&& 0 <= k <= items.len()
                &&& stops_at(items, accepts, hook_at, k)
                &&& forall|j: int| 0 <= j < k ==> !stops_at(items, accepts, hook_at, j)
                &&& out.frames == messages_between(items, 0, k)
                &&& out.frames.to_multiset() == messages_between(items, 0, k).to_multiset()
                &&& out.abort == stop_code(items, accepts, hook_at, k)
            }
        }),
{
    let start = CallModel { phase: CallPhase::Connecting, aborted: None };
    lemma_first_stop(items, accepts, hook_at, 0);
    if hook_at >= 0 && connected {
        lemma_drive_delivers_prefix(
            spec_step(start, CallEvent::<M>::Connected).0,
            items,
            accepts,
            hook_at,
            0,
        );
    }
}

} // verus!
