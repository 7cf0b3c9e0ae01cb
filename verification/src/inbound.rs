//! The inbound side of a track: frames in the order of their groups, and
//! what becomes of each once it has been decoded.
//!
//! A track is a sequence of groups, a group a sequence of frames. The reader
//! of a track asks for the next group, drains its frames, and asks again,
//! until the track is closed or fails. [`TrackCursor`] holds these steps;
//! the reader tells it what the transport returned and yields what it says.

use crate::wire::{kind_of_error, RpcWireError, TransportError};
use vstd::prelude::*;

verus! {

/// Where the reader of a track stands.
#[derive(Debug, Clone, Copy, PartialEq, Eq, Structural)]
pub enum TrackPhase {
    /// Between groups: the next group is awaited.
    AwaitGroup,
    /// Inside a group: its next frame is awaited.
    InGroup,
    /// The track is closed or has failed.
    Ended,
}

/// What the transport returned to the reader.
#[derive(Debug, Clone, PartialEq, Eq)]
pub enum TrackEvent<F, E> {
    /// A new group began.
    Group,
    /// The track was closed.
    TrackClosed,
    /// The track failed.
    TrackFailed(E),
    /// The group gave a frame.
    Frame(F),
    /// The group gave no further frame: it ended, or reading it failed.
    GroupDone,
}

/// What the reader asks the transport for next.
#[derive(Debug, Clone, Copy, PartialEq, Eq, Structural)]
pub enum Pull {
    /// The next group of the track.
    NextGroup,
    /// The next frame of the group.
    NextFrame,
    /// Nothing: the sequence is over.
    End,
}

/// The answer to one event of a track.
#[derive(Debug, Clone, PartialEq, Eq)]
pub struct TrackStep<F, E> {
    /// The item to yield, if the event gave one.
    pub item: Option<Result<F, E>>,
    /// What to ask the transport for next.
    pub next: Pull,
}

/// What a phase asks the transport for.
pub open spec fn pull_of(phase: TrackPhase) -> Pull {
    match phase {
        TrackPhase::AwaitGroup => Pull::NextGroup,
        TrackPhase::InGroup => Pull::NextFrame,
        TrackPhase::Ended => Pull::End,
    }
}

/// The phase after `event` and the answer to it.
///
/// Frames are yielded as they come. A group that gives no further frame
/// sends the reader on to the next group. A closed track ends the sequence;
/// a failed one ends it after its error has been yielded. An event that the
/// phase does not wait for changes nothing.
pub open spec fn spec_track_step<F, E>(phase: TrackPhase, event: TrackEvent<F, E>) -> (
    TrackPhase,
    TrackStep<F, E>,
) {
    match (phase, event) {
        (TrackPhase::AwaitGroup, TrackEvent::Group) => (
            TrackPhase::InGroup,
            TrackStep { item: None, next: Pull::NextFrame },
        ),
        (TrackPhase::AwaitGroup, TrackEvent::TrackClosed) => (
            TrackPhase::Ended,
            TrackStep { item: None, next: Pull::End },
        ),
        (TrackPhase::AwaitGroup, TrackEvent::TrackFailed(e)) => (
            TrackPhase::Ended,
            TrackStep { item: Some(Err(e)), next: Pull::End },
        ),
        (TrackPhase::InGroup, TrackEvent::Frame(f)) => (
            TrackPhase::InGroup,
            TrackStep { item: Some(Ok(f)), next: Pull::NextFrame },
        ),
        (TrackPhase::InGroup, TrackEvent::GroupDone) => (
            TrackPhase::AwaitGroup,
            TrackStep { item: None, next: Pull::NextGroup },
        ),
        _ => (phase, TrackStep { item: None, next: pull_of(phase) }),
    }
}

/// The reader's place in a track.
#[derive(Debug)]
pub struct TrackCursor {
    phase: TrackPhase,
}

impl View for TrackCursor {
    type V = TrackPhase;

    closed spec fn view(&self) -> TrackPhase {
        self.phase
    }
}

impl TrackCursor {
    /// The cursor of a track that has just been subscribed.
    pub fn new() -> (r: Self)
        ensures
            r@ == TrackPhase::AwaitGroup,
    {
        TrackCursor { phase: TrackPhase::AwaitGroup }
    }

    /// Where the reader stands.
    pub fn phase(&self) -> (r: TrackPhase)
        ensures
            r == self@,
    {
        self.phase
    }

    /// What the reader asks the transport for now.
    pub fn pull(&self) -> (r: Pull)
        ensures
            r == pull_of(self@),
    {
        match self.phase {
            TrackPhase::AwaitGroup => Pull::NextGroup,
            TrackPhase::InGroup => Pull::NextFrame,
            TrackPhase::Ended => Pull::End,
        }
    }

    /// Takes what the transport returned and answers with the item to yield
    /// and the next thing to ask for.
    pub fn step<F, E>(&mut self, event: TrackEvent<F, E>) -> (r: TrackStep<F, E>)
        ensures
            (final(self)@, r) == spec_track_step(old(self)@, event),
    {
        match self.phase {
            TrackPhase::AwaitGroup => match event {
                TrackEvent::Group => {
                    self.phase = TrackPhase::InGroup;
                    TrackStep { item: None, next: Pull::NextFrame }
                },
                TrackEvent::TrackClosed => {
                    self.phase = TrackPhase::Ended;
                    TrackStep { item: None, next: Pull::End }
                },
                TrackEvent::TrackFailed(e) => {
                    self.phase = TrackPhase::Ended;
                    TrackStep { item: Some(Err(e)), next: Pull::End }
                },
                _ => TrackStep { item: None, next: Pull::NextGroup },
            },
            TrackPhase::InGroup => match event {
                TrackEvent::Frame(f) => TrackStep { item: Some(Ok(f)), next: Pull::NextFrame },
                TrackEvent::GroupDone => {
                    self.phase = TrackPhase::AwaitGroup;
                    TrackStep { item: None, next: Pull::NextGroup }
                },
                _ => TrackStep { item: None, next: Pull::NextFrame },
            },
            TrackPhase::Ended => TrackStep { item: None, next: Pull::End },
        }
    }
}

/// How a track ends.
pub enum TrackEnd<E> {
    /// It is closed.
    Closed,
    /// It fails with an error.
    Failed(E),
}

/// The frames of `groups` from group `g`, frame `f` on, in the order of the
/// groups and, within a group, of its frames.
pub open spec fn frames_from<F>(groups: Seq<Seq<F>>, g: int, f: int) -> Seq<F>
    decreases groups.len() - g, (if 0 <= g < groups.len() { groups[g].len() - f } else { 0 }),
{
    if g < 0 || g >= groups.len() || f < 0 {
        Seq::empty()
    } else if f >= groups[g].len() {
        frames_from(groups, g + 1, 0)
    } else {
        seq![groups[g][f]] + frames_from(groups, g, f + 1)
    }
}

/// What a reader yields that stands before frame `f` of group `g`, or, where
/// `in_group` is false, before group `g`: it tells the cursor what a track of
/// these groups with this end returns and yields each item that the cursor
/// hands out.
pub open spec fn read_from<F, E>(
    groups: Seq<Seq<F>>,
    end: TrackEnd<E>,
    g: int,
    f: int,
    in_group: bool,
) -> Seq<Result<F, E>>
    decreases groups.len() - g, (if in_group { 1int } else { 2int }), (if 0 <= g < groups.len() {
        groups[g].len() - f
    } else {
        0
    }),
{
    if g < 0 || f < 0 {
        Seq::empty()
    } else if !in_group {
        let event = if g < groups.len() {
            TrackEvent::Group
        } else {
            match end {
                TrackEnd::Closed => TrackEvent::TrackClosed,
                TrackEnd::Failed(e) => TrackEvent::TrackFailed(e),
            }
        };
        let answer = spec_track_step(TrackPhase::AwaitGroup, event).1;
        let yielded = match answer.item {
            Some(item) => seq![item],
            None => Seq::empty(),
        };
        if answer.next == Pull::NextFrame && g < groups.len() {
            yielded + read_from(groups, end, g, 0, true)
        } else {
            yielded
        }
    } else if g >= groups.len() {
        Seq::empty()
    } else {
        let event = if f < groups[g].len() {
            TrackEvent::<F, E>::Frame(groups[g][f])
        } else {
            TrackEvent::<F, E>::GroupDone
        };
        let answer = spec_track_step(TrackPhase::InGroup, event).1;
        let yielded = match answer.item {
            Some(item) => seq![item],
            None => Seq::empty(),
        };
        if answer.next == Pull::NextFrame && f < groups[g].len() {
            yielded + read_from(groups, end, g, f + 1, true)
        } else if answer.next == Pull::NextGroup {
            yielded + read_from(groups, end, g + 1, 0, false)
        } else {
            yielded
        }
    }
}

/// The frames `frames`, each as a good item.
pub open spec fn as_items<F, E>(frames: Seq<F>) -> Seq<Result<F, E>> {
    Seq::new(frames.len(), |i: int| Ok::<F, E>(frames[i]))
}

/// The last item of a track with this end: its error, if it fails.
pub open spec fn end_items<F, E>(end: TrackEnd<E>) -> Seq<Result<F, E>> {
    match end {
        TrackEnd::Closed => Seq::empty(),
        TrackEnd::Failed(e) => seq![Err::<F, E>(e)],
    }
}

/// From any place in a track, the reader yields the frames that are left, in
/// the order of their groups and of their place within the group, and then
/// the error of the track if it failed.
pub proof fn lemma_read_from_keeps_order<F, E>(
    groups: Seq<Seq<F>>,
    end: TrackEnd<E>,
    g: int,
    f: int,
    in_group: bool,
)
    requires
        0 <= g <= groups.len(),
        in_group ==> g < groups.len() && 0 <= f <= groups[g].len(),
        !in_group ==> f == 0,
    ensures
        read_from(groups, end, g, f, in_group) == as_items::<F, E>(frames_from(groups, g, f))
            + end_items::<F, E>(end),
    decreases groups.len() - g, (if in_group { 1int } else { 2int }), (if 0 <= g < groups.len() {
        groups[g].len() - f
    } else {
        0
    }),
{
    if !in_group {
        if g < groups.len() {
            lemma_read_from_keeps_order(groups, end, g, 0, true);
        }
    } else if f < groups[g].len() {
        lemma_read_from_keeps_order(groups, end, g, f + 1, true);
    } else {
        lemma_read_from_keeps_order(groups, end, g + 1, 0, false);
    }
}

/// The reader of a track yields all its frames, in the order of their groups
/// and of their place within the group, and then the error of the track if
/// it failed: it leaves nothing out and reorders nothing.
pub proof fn lemma_read_keeps_order<F, E>(groups: Seq<Seq<F>>, end: TrackEnd<E>)
    ensures
        read_from(groups, end, 0, 0, false) == as_items::<F, E>(frames_from(groups, 0, 0))
            + end_items::<F, E>(end),
{
    lemma_read_from_keeps_order(groups, end, 0, 0, false);
}

/// One item of the inbound sequence after decoding.
#[derive(Debug, Clone, PartialEq, Eq)]
pub enum InboundItem<M> {
    /// A frame that decoded as a message.
    Message(M),
    /// A frame that did not decode.
    Undecodable,
    /// An error of the transport.
    Failed(TransportError),
    /// The end of the sequence.
    Ended,
}

/// What a request stream hands to its connector for one item.
#[derive(Debug, Clone, PartialEq, Eq)]
pub enum Delivery<M> {
    /// The next request.
    Yield(M),
    /// The end of the stream. Where `notify` holds, the decode-error hook is
    /// to be run, which aborts the response track.
    End { notify: bool },
}

/// What a request stream that is still open makes of `item`: a message is
/// handed on, anything else ends the stream, and only an undecodable frame
/// runs the hook.
pub open spec fn spec_deliver<M>(item: InboundItem<M>) -> Delivery<M> {
    match item {
        InboundItem::Message(m) => Delivery::Yield(m),
        InboundItem::Undecodable => Delivery::End { notify: true },
        InboundItem::Failed(_) => Delivery::End { notify: false },
        InboundItem::Ended => Delivery::End { notify: false },
    }
}

/// What a request stream makes of `item`, and whether it has ended
/// afterwards. An open stream hands on a message and ends on anything else;
/// a stream that has ended stays ended and runs no hook again.
pub open spec fn spec_deliver_step<M>(ended: bool, item: InboundItem<M>) -> (bool, Delivery<M>) {
    if ended {
        (true, Delivery::End { notify: false })
    } else {
        (!(item is Message), spec_deliver(item))
    }
}

/// The state of a decoded request stream: open until its first end.
#[derive(Debug)]
pub struct DecodedInbound {
    ended: bool,
}

impl View for DecodedInbound {
    type V = bool;

    /// True once the stream has ended.
    closed spec fn view(&self) -> bool {
        self.ended
    }
}

impl DecodedInbound {
    /// An open request stream.
    pub fn new() -> (r: Self)
        ensures
            !r@,
    {
        DecodedInbound { ended: false }
    }

    /// Tells whether the stream has ended.
    pub fn is_ended(&self) -> (r: bool)
        ensures
            r == self@,
    {
        self.ended
    }

    /// Takes the next item of the inbound sequence and answers with what the
    /// connector gets. An open stream hands on a message and ends on anything
    /// else; a stream that has ended stays ended and runs no hook again.
    pub fn deliver<M>(&mut self, item: InboundItem<M>) -> (r: Delivery<M>)
        ensures
            (final(self)@, r) == spec_deliver_step(old(self)@, item),
    {
        if self.ended {
            return Delivery::End { notify: false };
        }
        match item {
            InboundItem::Message(m) => Delivery::Yield(m),
            InboundItem::Undecodable => {
                self.ended = true;
                Delivery::End { notify: true }
            },
            InboundItem::Failed(_) => {
                self.ended = true;
                Delivery::End { notify: false }
            },
            InboundItem::Ended => {
                self.ended = true;
                Delivery::End { notify: false }
            },
        }
    }

    /// What the stream of good requests keeps of an item: the message, if it
    /// is one. Frames that do not decode are passed over in silence.
    pub fn keep_ok<M>(item: InboundItem<M>) -> (r: Option<M>)
        ensures
            r == match item {
                InboundItem::Message(m) => Some(m),
                _ => None,
            },
    {
        match item {
            InboundItem::Message(m) => Some(m),
            _ => None,
        }
    }
}

/// What a connector saw of its request stream: the requests, in order, and
/// how often the decode-error hook was run.
pub struct RequestsSeen<M> {
    /// The requests that the stream handed on.
    pub requests: Seq<M>,
    /// The number of times the hook was run.
    pub notified: nat,
}

/// What a connector sees that polls its request stream once for each item
/// from `i` on, the stream being ended or not at that point.
pub open spec fn deliver_from<M>(ended: bool, items: Seq<InboundItem<M>>, i: int) -> RequestsSeen<M>
    decreases items.len() - i,
{
    if i < 0 || i >= items.len() {
        RequestsSeen { requests: Seq::empty(), notified: 0 }
    } else {
        let (after, delivery) = spec_deliver_step(ended, items[i]);
        let rest = deliver_from(after, items, i + 1);
        match delivery {
            Delivery::Yield(m) => RequestsSeen {
                requests: seq![m] + rest.requests,
                notified: rest.notified,
            },
            Delivery::End { notify } => RequestsSeen {
                requests: rest.requests,
                notified: rest.notified + if notify {
                    1nat
                } else {
                    0nat
                },
            },
        }
    }
}

/// The first place at or after `i` where `items` holds no message.
pub open spec fn first_end<M>(items: Seq<InboundItem<M>>, i: int) -> int
    decreases items.len() - i,
{
    if i < 0 || i >= items.len() || !(items[i] is Message) {
        i
    } else {
        first_end(items, i + 1)
    }
}

/// The messages of `items` from `from` up to, not including, `to`, all of
/// which are messages.
pub open spec fn requests_between<M>(items: Seq<InboundItem<M>>, from: int, to: int) -> Seq<M> {
    Seq::new((to - from) as nat, |k: int| items[from + k]->Message_0)
}

/// A stream that has ended hands on nothing and runs no hook, whatever comes.
pub proof fn lemma_ended_stream_is_silent<M>(items: Seq<InboundItem<M>>, i: int)
    ensures
        deliver_from(true, items, i) == (RequestsSeen::<M> { requests: Seq::empty(), notified: 0 }),
    decreases items.len() - i,
{
    if 0 <= i < items.len() {
        lemma_ended_stream_is_silent(items, i + 1);
    }
}

/// A connector sees the requests that decode up to the first item that is
/// not a message, in order, and nothing after it, whatever follows. The hook
/// runs once if that item is a frame that does not decode, and not at all
/// otherwise.
pub proof fn lemma_requests_end_at_first_failure<M>(items: Seq<InboundItem<M>>, i: int)
    requires
        0 <= i <= items.len(),
    ensures
        ({
            let k = first_end(items, i);
            let seen = deliver_from(false, items, i);
            &&& i <= k <= items.len()
            &&& forall|j: int| i <= j < k ==> items[j] is Message
            &&& k < items.len() ==> !(items[k] is Message)
            &&& seen.requests == requests_between(items, i, k)
            &&& seen.notified == if k < items.len() && items[k] is Undecodable {
                1nat
            } else {
                0nat
            }
        }),
    decreases items.len() - i,
{
    let k = first_end(items, i);
    let seen = deliver_from(false, items, i);
    if i < items.len() {
        if items[i] is Message {
            lemma_requests_end_at_first_failure(items, i + 1);
            assert(seen.requests =~= requests_between(items, i, k));
        } else {
            lemma_ended_stream_is_silent(items, i + 1);
        }
    }
}

/// What a caller receives for one item of the response sequence: the
/// message, the decode failure, or what the transport's error stands for.
/// The end of the sequence gives nothing.
pub open spec fn spec_receive<M>(item: InboundItem<M>) -> Option<Result<M, RpcWireError>> {
    match item {
        InboundItem::Message(m) => Some(Ok(m)),
        InboundItem::Undecodable => Some(Err(RpcWireError::Decode)),
        InboundItem::Failed(e) => Some(Err(kind_of_error(e))),
        InboundItem::Ended => None,
    }
}

/// What a caller receives for one item of the response sequence.
pub fn receive<M>(item: InboundItem<M>) -> (r: Option<Result<M, RpcWireError>>)
    ensures
        r == spec_receive(item),
{
    match item {
        InboundItem::Message(m) => Some(Ok(m)),
        InboundItem::Undecodable => Some(Err(RpcWireError::Decode)),
        InboundItem::Failed(e) => Some(Err(RpcWireError::transport_with(e))),
        InboundItem::Ended => None,
    }
}

} // verus!
