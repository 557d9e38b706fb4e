//! The stream echo server: one handler per accepted connection.
//!
//! A handler never waits. It is told what happened on its connection and
//! answers with what has to be done next; whoever owns the socket does the
//! reading, the writing and the waiting.

use tokio::net::TcpListener;
use vstd::prelude::*;
use crate::error::BindError;
use crate::error::IoFailure;
use crate::signal::ShutdownSignal;
use crate::signal::SignalState;
use crate::BUFFER_CAPACITY;

verus! {

/// Why a handler stopped.
#[derive(Clone, Copy, Debug, PartialEq, Eq, Structural)]
pub enum CloseReason {
    /// The peer closed its side: a read returned no bytes.
    PeerClosed,
    /// A read from the connection failed.
    ReadFailed,
    /// Writing the echo back failed.
    WriteFailed,
    /// The shutdown signal was observed while waiting for input.
    Shutdown,
}

/// The life of a handler as its users see it.
#[derive(Clone, Copy, Debug, PartialEq, Eq, Structural)]
pub enum HandlerState {
    Open,
    Echoing,
    Closed,
}

/// What a handler is waiting for.
#[derive(Clone, Copy, Debug, PartialEq, Eq, Structural)]
pub enum Phase {
    /// Created, not yet started.
    Open,
    /// Waiting for bytes from the peer or for the shutdown signal,
    /// whichever comes first.
    AwaitingInput,
    /// Waiting for the echo of the last read to be written out.
    Writing,
    /// Done, for the reason given.
    Closed(CloseReason),
}

/// What happened on the connection since the last action was handed out.
#[derive(Clone, Copy, Debug, PartialEq, Eq, Structural)]
pub enum HandlerEvent {
    /// The task that serves the connection began to run.
    Started,
    /// A read placed this many bytes at the start of the buffer.
    Read(usize),
    /// A read failed.
    ReadFailed,
    /// The pending bytes were written out in full.
    Written,
    /// Writing the pending bytes failed.
    WriteFailed,
    /// The shutdown signal fired.
    Shutdown,
}

/// What the owner of the socket has to do next.
#[derive(Clone, Copy, Debug, PartialEq, Eq, Structural)]
pub enum HandlerAction {
    /// Report `Started`.
    Start,
    /// Read into the buffer and wait for the shutdown signal at the same
    /// time; report whichever completes first.
    AwaitInput,
    /// Write the outgoing bytes to the connection, all of them.
    Write,
    /// Drop the connection: the handler is done.
    Finish,
}

/// A handler as a mathematical value.
pub struct HandlerView {
    pub phase: Phase,
    /// The whole buffer; its length is the handler's capacity.
    pub buffer: Seq<u8>,
    /// How many bytes at the start of the buffer still have to be written.
    pub pending: nat,
}

impl HandlerView {
    /// The buffer fits in memory, pending bytes lie inside it, and there are
    /// some exactly while a write is awaited.
    pub open spec fn wf(self) -> bool {
        &&& self.buffer.len() <= usize::MAX
        &&& self.pending <= self.buffer.len()
        &&& (self.phase == Phase::Writing <==> self.pending > 0)
    }

    pub open spec fn state(self) -> HandlerState {
        match self.phase {
            Phase::Open => HandlerState::Open,
            Phase::AwaitingInput => HandlerState::Echoing,
            Phase::Writing => HandlerState::Echoing,
            Phase::Closed(_) => HandlerState::Closed,
        }
    }

    pub open spec fn close_reason(self) -> Option<CloseReason> {
        match self.phase {
            Phase::Closed(reason) => Some(reason),
            _ => None,
        }
    }

    /// The bytes that go back to the peer.
    pub open spec fn outgoing(self) -> Seq<u8> {
        self.buffer.take(self.pending as int)
    }

    pub open spec fn action(self) -> HandlerAction {
        match self.phase {
            Phase::Open => HandlerAction::Start,
            Phase::AwaitingInput => HandlerAction::AwaitInput,
            Phase::Writing => HandlerAction::Write,
            Phase::Closed(_) => HandlerAction::Finish,
        }
    }

    /// A read cannot report more bytes than the buffer holds.
    pub open spec fn admits(self, event: HandlerEvent) -> bool {
        event matches HandlerEvent::Read(n) ==> n <= self.buffer.len()
    }

    /// The handler after `event`. An event that the current phase does not
    /// wait for changes nothing; in particular the shutdown signal does not
    /// interrupt a write.
    pub open spec fn after(self, event: HandlerEvent) -> HandlerView {
        match (self.phase, event) {
            (Phase::Open, HandlerEvent::Started) => HandlerView {
                phase: Phase::AwaitingInput,
                ..self
            },
            (Phase::AwaitingInput, HandlerEvent::Read(n)) => if n == 0 {
                HandlerView { phase: Phase::Closed(CloseReason::PeerClosed), ..self }
            } else {
                HandlerView { phase: Phase::Writing, pending: n as nat, ..self }
            },
            (Phase::AwaitingInput, HandlerEvent::ReadFailed) => HandlerView {
                phase: Phase::Closed(CloseReason::ReadFailed),
                ..self
            },
            (Phase::AwaitingInput, HandlerEvent::Shutdown) => HandlerView {
                phase: Phase::Closed(CloseReason::Shutdown),
                ..self
            },
            (Phase::Writing, HandlerEvent::Written) => HandlerView {
                phase: Phase::AwaitingInput,
                pending: 0,
                ..self
            },
            (Phase::Writing, HandlerEvent::WriteFailed) => HandlerView {
                phase: Phase::Closed(CloseReason::WriteFailed),
                pending: 0,
                ..self
            },
            _ => self,
        }
    }

    /// The handler once a read has put `chunk` at the start of its buffer.
    pub open spec fn filled(self, chunk: Seq<u8>) -> HandlerView {
        HandlerView { buffer: chunk + self.buffer.skip(chunk.len() as int), ..self }
    }
}

/// The state of one accepted connection: a phase and a private buffer.
pub struct ConnectionHandler {
    phase: Phase,
    buffer: Vec<u8>,
    pending: usize,
}

impl View for ConnectionHandler {
    type V = HandlerView;

    closed spec fn view(&self) -> HandlerView {
        HandlerView { phase: self.phase, buffer: self.buffer@, pending: self.pending as nat }
    }
}

impl ConnectionHandler {
    /// A handler in `Open` with a zeroed buffer of `BUFFER_CAPACITY` bytes.
    pub fn new() -> (handler: Self)
        ensures
            handler@.wf(),
            handler@.phase == Phase::Open,
            handler@.pending == 0,
            handler@.buffer == Seq::new(BUFFER_CAPACITY as nat, |i: int| 0u8),
    {
        Self::with_capacity(BUFFER_CAPACITY)
    }

    /// A handler in `Open` with a zeroed buffer of `capacity` bytes.
    pub fn with_capacity(capacity: usize) -> (handler: Self)
        ensures
            handler@.wf(),
            handler@.phase == Phase::Open,
            handler@.pending == 0,
            handler@.buffer == Seq::new(capacity as nat, |i: int| 0u8),
    {
        let buffer = vec![0u8; capacity];
        assert(buffer@ =~= Seq::new(capacity as nat, |i: int| 0u8));
        ConnectionHandler { phase: Phase::Open, buffer, pending: 0 }
    }

    /// How many bytes one read can take.
    pub fn capacity(&self) -> (capacity: usize)
        ensures
            capacity == self@.buffer.len(),
    {
        self.buffer.len()
    }

    /// What the handler is waiting for.
    pub fn phase(&self) -> (phase: Phase)
        ensures
            phase == self@.phase,
    {
        self.phase
    }

    /// Where the handler stands between `Open` and `Closed`.
    pub fn state(&self) -> (state: HandlerState)
        ensures
            state == self@.state(),
    {
        match self.phase {
            Phase::Open => HandlerState::Open,
            Phase::AwaitingInput => HandlerState::Echoing,
            Phase::Writing => HandlerState::Echoing,
            Phase::Closed(_) => HandlerState::Closed,
        }
    }

    /// Why the handler stopped, once it has.
    pub fn close_reason(&self) -> (reason: Option<CloseReason>)
        ensures
            reason == self@.close_reason(),
    {
        match self.phase {
            Phase::Closed(reason) => Some(reason),
            _ => None,
        }
    }

    /// What has to be done on the connection now.
    pub fn action(&self) -> (action: HandlerAction)
        ensures
            action == self@.action(),
    {
        match self.phase {
            Phase::Open => HandlerAction::Start,
            Phase::AwaitingInput => HandlerAction::AwaitInput,
            Phase::Writing => HandlerAction::Write,
            Phase::Closed(_) => HandlerAction::Finish,
        }
    }

    /// The buffer, for a read to fill. Nothing but the bytes can change
    /// through it.
    pub fn buffer_mut(&mut self) -> (buffer: &mut [u8])
        ensures
            buffer@ == old(self)@.buffer,
            final(self)@ == (HandlerView { buffer: final(buffer)@, ..old(self)@ }),
    {
        self.buffer.as_mut_slice()
    }

    /// The bytes to write: the first `pending` bytes of the buffer.
    pub fn outgoing(&self) -> (bytes: &[u8])
        requires
            self@.wf(),
        ensures
            bytes@ == self@.outgoing(),
    {
        vstd::slice::slice_subrange(self.buffer.as_slice(), 0, self.pending)
    }

    /// Takes in what happened and says what to do next.
    pub fn step(&mut self, event: HandlerEvent) -> (action: HandlerAction)
        requires
            old(self)@.wf(),
            old(self)@.admits(event),
        ensures
            final(self)@ == old(self)@.after(event),
            final(self)@.wf(),
            action == final(self)@.action(),
    {
        match (self.phase, event) {
            (Phase::Open, HandlerEvent::Started) => {
                self.phase = Phase::AwaitingInput;
            },
            (Phase::AwaitingInput, HandlerEvent::Read(n)) => {
                if n == 0 {
                    self.phase = Phase::Closed(CloseReason::PeerClosed);
                } else {
                    self.phase = Phase::Writing;
                    self.pending = n;
                }
            },
            (Phase::AwaitingInput, HandlerEvent::ReadFailed) => {
                self.phase = Phase::Closed(CloseReason::ReadFailed);
            },
            (Phase::AwaitingInput, HandlerEvent::Shutdown) => {
                self.phase = Phase::Closed(CloseReason::Shutdown);
            },
            (Phase::Writing, HandlerEvent::Written) => {
                self.phase = Phase::AwaitingInput;
                self.pending = 0;
            },
            (Phase::Writing, HandlerEvent::WriteFailed) => {
                self.phase = Phase::Closed(CloseReason::WriteFailed);
                self.pending = 0;
            },
            _ => {},
        }
        self.action()
    }
}

/// `tokio::net::TcpListener`, carried as it is: nothing of its inside is seen
/// here.
#[verifier::external_type_specification]
#[verifier::external_body]
pub struct ExTcpListener(TcpListener);

/// How an attempt to accept a connection ended.
#[derive(Clone, Copy, Debug, PartialEq, Eq, Structural)]
pub enum AcceptOutcome {
    Accepted,
    Failed,
}

/// What the accept loop does with the outcome of one accept.
pub enum AcceptDecision {
    /// Start a task of its own for the new connection, with this handler and
    /// this handle on the server's shutdown signal; then accept again.
    Spawn { handler: ConnectionHandler, signal: ShutdownSignal },
    /// Nothing was accepted: accept again.
    Retry,
}

/// A stream echo server: one listening endpoint and the shutdown signal that
/// its handlers share.
pub struct TcpServer {
    listener: TcpListener,
    signal: ShutdownSignal,
}

impl TcpServer {
    /// The one endpoint that the server listens on.
    pub closed spec fn endpoint(&self) -> TcpListener {
        self.listener
    }

    /// The notifier behind the server's shutdown signal.
    pub closed spec fn notifier(&self) -> tokio::sync::Notify {
        self.signal.shared()
    }

    /// A server on an endpoint that is already bound, with a signal of its
    /// own.
    pub fn from_listener(listener: TcpListener) -> (server: Self)
        ensures
            server.endpoint() == listener,
    {
        TcpServer { listener, signal: ShutdownSignal::new() }
    }

    /// Makes the server of an attempt to bind: a server on the endpoint if
    /// there is one, else the bind error that belongs to the failure.
    pub fn bind(bound: Result<TcpListener, IoFailure>) -> (server: Result<Self, BindError>)
        ensures
            match bound {
                Ok(listener) => server matches Ok(s) && s.endpoint() == listener,
                Err(failure) => server matches Err(e) && e == BindError::of(failure),
            },
    {
        match bound {
            Ok(listener) => Ok(Self::from_listener(listener)),
            Err(failure) => Err(BindError::classify(failure)),
        }
    }

    /// The listening endpoint, for the accept loop.
    pub fn listener(&self) -> (listener: &TcpListener)
        ensures
            *listener == self.endpoint(),
    {
        &self.listener
    }

    /// The signal that `shutdown` fires.
    pub fn signal(&self) -> (signal: &ShutdownSignal)
        ensures
            signal.shared() == self.notifier(),
    {
        &self.signal
    }

    /// Decides on the outcome of one accept. A connection gets a fresh
    /// handler; a failure ends nothing, the loop goes on either way.
    pub fn on_accept(&self, outcome: AcceptOutcome) -> (decision: AcceptDecision)
        ensures
            outcome == AcceptOutcome::Accepted <==> decision is Spawn,
            outcome == AcceptOutcome::Failed <==> decision is Retry,
            decision matches AcceptDecision::Spawn { handler, signal } ==> {
                &&& signal.shared() == self.notifier()
                &&& handler@.wf()
                &&& handler@.phase == Phase::Open
                &&& handler@.pending == 0
                &&& handler@.buffer == Seq::new(BUFFER_CAPACITY as nat, |i: int| 0u8)
            },
    {
        match outcome {
            AcceptOutcome::Accepted => AcceptDecision::Spawn {
                handler: ConnectionHandler::new(),
                signal: self.signal.share(),
            },
            AcceptOutcome::Failed => AcceptDecision::Retry,
        }
    }

    /// Fires the shutdown signal once and returns: it waits for no handler,
    /// and one trigger reaches at most one of them.
    pub fn shutdown(&self) {
        self.signal.trigger();
    }
}

/// What goes back to the peer when a read delivers `chunk`.
pub open spec fn reply(v: HandlerView, chunk: Seq<u8>) -> Seq<u8> {
    v.filled(chunk).after(HandlerEvent::Read(chunk.len() as usize)).outgoing()
}

/// The handler after `chunk` was read and its echo written out.
pub open spec fn after_round(v: HandlerView, chunk: Seq<u8>) -> HandlerView {
    v.filled(chunk).after(HandlerEvent::Read(chunk.len() as usize)).after(HandlerEvent::Written)
}

/// The replies to a run of reads, one per read, in order.
pub open spec fn replies(v: HandlerView, chunks: Seq<Seq<u8>>) -> Seq<Seq<u8>>
    decreases chunks.len(),
{
    if chunks.len() == 0 {
        Seq::empty()
    } else {
        seq![reply(v, chunks[0])] + replies(after_round(v, chunks[0]), chunks.drop_first())
    }
}

/// Every chunk is something a read of this handler can deliver: at least one
/// byte, at most a buffer full.
pub open spec fn readable(v: HandlerView, chunks: Seq<Seq<u8>>) -> bool {
    forall|i: int| 0 <= i < chunks.len() ==> 0 < (#[trigger] chunks[i]).len() <= v.buffer.len()
}

/// The chunks laid end to end.
pub open spec fn joined(chunks: Seq<Seq<u8>>) -> Seq<u8>
    decreases chunks.len(),
{
    if chunks.len() == 0 {
        Seq::empty()
    } else {
        chunks[0] + joined(chunks.drop_first())
    }
}

/// How bytes sent in one piece reach a reader that takes as much as its
/// buffer holds each time: buffers full, then the rest.
pub open spec fn full_reads(sent: Seq<u8>, capacity: nat) -> Seq<Seq<u8>>
    decreases sent.len(),
{
    if sent.len() == 0 || capacity == 0 {
        Seq::empty()
    } else if sent.len() <= capacity {
        seq![sent]
    } else {
        seq![sent.take(capacity as int)] + full_reads(sent.skip(capacity as int), capacity)
    }
}

/// One round of the echo: a handler that waits for input and reads `chunk`
/// asks for a write of exactly those bytes, and after the write waits for
/// input again with its capacity unchanged.
pub proof fn lemma_round(v: HandlerView, chunk: Seq<u8>)
    requires
        v.wf(),
        v.phase == Phase::AwaitingInput,
        0 < chunk.len() <= v.buffer.len(),
    ensures
        v.filled(chunk).after(HandlerEvent::Read(chunk.len() as usize)).action()
            == HandlerAction::Write,
        reply(v, chunk) == chunk,
        after_round(v, chunk).wf(),
        after_round(v, chunk).phase == Phase::AwaitingInput,
        after_round(v, chunk).buffer.len() == v.buffer.len(),
{
    let filled = v.filled(chunk);
    assert(filled.buffer.len() == v.buffer.len());
    assert(filled.buffer.take(chunk.len() as int) =~= chunk);
}

/// The echo is the identity on the stream: whatever reads deliver, the
/// replies are those same chunks, in the same order.
pub proof fn lemma_replies_are_the_reads(v: HandlerView, chunks: Seq<Seq<u8>>)
    requires
        v.wf(),
        v.phase == Phase::AwaitingInput,
        readable(v, chunks),
    ensures
        replies(v, chunks) == chunks,
    decreases chunks.len(),
{
    if chunks.len() > 0 {
        let first = chunks[0];
        let rest = chunks.drop_first();
        lemma_round(v, first);
        let next = after_round(v, first);
        assert forall|i: int| 0 <= i < rest.len() implies 0 < (#[trigger] rest[i]).len()
            <= next.buffer.len() by {
            assert(rest[i] == chunks[i + 1]);
        }
        lemma_replies_are_the_reads(next, rest);
        assert(seq![first] + rest =~= chunks);
    } else {
        assert(chunks =~= Seq::empty());
    }
}

/// Cutting into full reads loses nothing and yields only readable chunks.
pub proof fn lemma_full_reads(sent: Seq<u8>, capacity: nat)
    requires
        capacity > 0,
    ensures
        joined(full_reads(sent, capacity)) == sent,
        forall|i: int|
            0 <= i < full_reads(sent, capacity).len() ==> 0 < (#[trigger] full_reads(
                sent,
                capacity,
            )[i]).len() <= capacity,
        sent.len() > 0 ==> full_reads(sent, capacity).len() > 0 && full_reads(sent, capacity)[0]
            == sent.take(if sent.len() <= capacity { sent.len() as int } else { capacity as int }),
    decreases sent.len(),
{
    let reads = full_reads(sent, capacity);
    if sent.len() == 0 {
        assert(joined(reads) =~= sent);
    } else if sent.len() <= capacity {
        assert(reads.drop_first() =~= Seq::<Seq<u8>>::empty());
        assert(joined(reads.drop_first()) =~= Seq::<u8>::empty());
        assert(joined(reads) =~= sent);
        assert(sent.take(sent.len() as int) =~= sent);
    } else {
        let head = sent.take(capacity as int);
        let tail = sent.skip(capacity as int);
        lemma_full_reads(tail, capacity);
        let rest = full_reads(tail, capacity);
        assert(reads.drop_first() =~= rest);
        assert(reads[0] == head);
        assert(head + tail =~= sent);
        assert forall|i: int| 0 <= i < reads.len() implies 0 < (#[trigger] reads[i]).len()
            <= capacity by {
            if i > 0 {
                assert(reads[i] == rest[i - 1]);
            }
        }
    }
}

/// Bytes sent in one piece that fit the buffer come back as one reply, equal
/// to what was sent.
pub proof fn lemma_single_reply(v: HandlerView, sent: Seq<u8>)
    requires
        v.wf(),
        v.phase == Phase::AwaitingInput,
        0 < sent.len() <= v.buffer.len(),
    ensures
        replies(v, full_reads(sent, v.buffer.len())) == seq![sent],
{
    let reads = full_reads(sent, v.buffer.len());
    assert(reads == seq![sent]);
    assert(readable(v, reads));
    lemma_replies_are_the_reads(v, reads);
}

/// Bytes sent in one piece that exceed the buffer come back in several
/// replies: the first is the first buffer full, and all of them laid end to
/// end are what was sent.
pub proof fn lemma_chunked_reply(v: HandlerView, sent: Seq<u8>)
    requires
        v.wf(),
        v.phase == Phase::AwaitingInput,
        0 < v.buffer.len() < sent.len(),
    ensures
        replies(v, full_reads(sent, v.buffer.len())).len() >= 2,
        replies(v, full_reads(sent, v.buffer.len()))[0] == sent.take(v.buffer.len() as int),
        joined(replies(v, full_reads(sent, v.buffer.len()))) == sent,
{
    let capacity = v.buffer.len();
    let reads = full_reads(sent, capacity);
    lemma_full_reads(sent, capacity);
    lemma_full_reads(sent.skip(capacity as int), capacity);
    assert(readable(v, reads));
    lemma_replies_are_the_reads(v, reads);
}

/// A closed handler stays closed, whatever is reported to it.
pub proof fn lemma_closed_is_final(v: HandlerView, event: HandlerEvent)
    requires
        v.state() == HandlerState::Closed,
    ensures
        v.after(event) == v,
        v.action() == HandlerAction::Finish,
{
}

/// Reads and writes take turns: while a write is awaited no read is taken
/// in, and while input is awaited no write is counted. So the echo of one
/// read is out before the next read is looked at.
pub proof fn lemma_reads_and_writes_alternate(v: HandlerView, n: usize)
    ensures
        v.phase == Phase::Writing ==> v.after(HandlerEvent::Read(n)) == v && v.after(
            HandlerEvent::ReadFailed,
        ) == v,
        v.phase == Phase::AwaitingInput ==> v.after(HandlerEvent::Written) == v && v.after(
            HandlerEvent::WriteFailed,
        ) == v,
{
}

/// Every step keeps a sound handler sound and its capacity as it was.
pub proof fn lemma_step_keeps_wf(v: HandlerView, event: HandlerEvent)
    requires
        v.wf(),
        v.admits(event),
    ensures
        v.after(event).wf(),
        v.after(event).buffer == v.buffer,
{
}

/// Every handler of the fleet is sound and waits for input.
pub open spec fn all_await_input(fleet: Seq<HandlerView>) -> bool {
    forall|i: int|
        0 <= i < fleet.len() ==> (#[trigger] fleet[i]).wf() && fleet[i].phase
            == Phase::AwaitingInput
}

/// Each handler of the fleet, named by its index, waits on the signal, and
/// nobody else does.
pub open spec fn waited_on_by(signal: SignalState, fleet: Seq<HandlerView>) -> bool {
    &&& signal.wf()
    &&& signal.waiting.len() == fleet.len()
    &&& forall|k: int|
        0 <= k < signal.waiting.len() ==> 0 <= (#[trigger] signal.waiting[k]) < fleet.len()
}

/// The fleet after one trigger of the signal: the handler that the trigger
/// wakes sees the shutdown, the others see nothing.
pub open spec fn after_trigger(fleet: Seq<HandlerView>, signal: SignalState) -> Seq<HandlerView> {
    match signal.woken() {
        Some(i) => if 0 <= i < fleet.len() {
            fleet.update(i, fleet[i].after(HandlerEvent::Shutdown))
        } else {
            fleet
        },
        None => fleet,
    }
}

/// A handler that waits for input and sees the shutdown signal closes, with
/// nothing left to write.
pub proof fn lemma_shutdown_closes(v: HandlerView)
    requires
        v.wf(),
        v.phase == Phase::AwaitingInput,
    ensures
        v.after(HandlerEvent::Shutdown).state() == HandlerState::Closed,
        v.after(HandlerEvent::Shutdown).close_reason() == Some(CloseReason::Shutdown),
        v.after(HandlerEvent::Shutdown).action() == HandlerAction::Finish,
        v.after(HandlerEvent::Shutdown).wf(),
{
}

/// A handler in the middle of a write is not interrupted by the signal.
pub proof fn lemma_shutdown_spares_a_write(v: HandlerView)
    requires
        v.phase == Phase::Writing,
    ensures
        v.after(HandlerEvent::Shutdown) == v,
{
}

/// With one connection, one trigger ends its handler.
pub proof fn lemma_sole_handler_closes(fleet: Seq<HandlerView>, signal: SignalState)
    requires
        fleet.len() == 1,
        all_await_input(fleet),
        waited_on_by(signal, fleet),
    ensures
        after_trigger(fleet, signal).len() == 1,
        after_trigger(fleet, signal)[0].state() == HandlerState::Closed,
        after_trigger(fleet, signal)[0].close_reason() == Some(CloseReason::Shutdown),
        signal.triggered().waiting.len() == 0,
{
    assert(signal.waiting[0] == 0);
    lemma_shutdown_closes(fleet[0]);
}

/// With two or more connections, one trigger ends exactly one handler, the
/// one that has waited longest. Every other handler is as it was, still
/// waiting for input, and the signal holds nothing for it: a single trigger
/// is no broadcast.
pub proof fn lemma_one_trigger_closes_one(fleet: Seq<HandlerView>, signal: SignalState)
    requires
        fleet.len() >= 2,
        all_await_input(fleet),
        waited_on_by(signal, fleet),
    ensures
        after_trigger(fleet, signal).len() == fleet.len(),
        0 <= signal.waiting[0] < fleet.len(),
        after_trigger(fleet, signal)[signal.waiting[0]].state() == HandlerState::Closed,
        forall|i: int|
            0 <= i < fleet.len() && i != signal.waiting[0] ==> (#[trigger] after_trigger(
                fleet,
                signal,
            )[i]) == fleet[i] && fleet[i].state() == HandlerState::Echoing,
        signal.triggered().waiting.len() == fleet.len() - 1,
        !signal.triggered().permit,
{
    let woken = signal.waiting[0];
    lemma_shutdown_closes(fleet[woken]);
    crate::signal::lemma_trigger_wakes_one(signal);
}

} // verus!
