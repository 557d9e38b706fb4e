//! The datagram echo server: one socket, one loop that serves every sender
//! in turn.
//!
//! As with the stream server, nothing here waits. The loop is told what
//! happened on the socket and answers with what to do next.

use tokio::net::UdpSocket;
use vstd::prelude::*;
use crate::error::BindError;
use crate::error::IoFailure;
use crate::error::RuntimeError;
use crate::signal::ShutdownSignal;
use crate::signal::SignalState;
use crate::BUFFER_CAPACITY;

verus! {

/// `tokio::net::UdpSocket`, carried as it is: nothing of its inside is seen
/// here.
#[verifier::external_type_specification]
#[verifier::external_body]
pub struct ExUdpSocket(UdpSocket);

/// Where a datagram came from, as plain numbers.
#[allow(inconsistent_fields)]
#[derive(Clone, Copy, Debug, PartialEq, Eq, Structural)]
pub enum PeerAddr {
    /// An IPv4 address, its four bytes read as one big-endian number.
    V4 { ip: u32, port: u16 },
    /// An IPv6 address, its sixteen bytes read as one big-endian number.
    V6 { ip: u128, port: u16, flowinfo: u32, scope_id: u32 },
}

/// What the loop is waiting for.
#[derive(Clone, Copy, Debug, PartialEq, Eq, Structural)]
pub enum DatagramPhase {
    /// Waiting for a datagram or for the shutdown signal, whichever comes
    /// first.
    Receiving,
    /// Waiting for the echo of the last datagram to be sent.
    Sending,
    /// The shutdown signal was seen: the loop has ended, the server ran to a
    /// good end.
    Stopped,
    /// Receiving failed: the loop has ended, and the run ends with an error.
    Failed(IoFailure),
}

/// What happened on the socket since the last action was handed out.
#[derive(Clone, Copy, Debug, PartialEq, Eq, Structural)]
pub enum DatagramEvent {
    /// A datagram from `source` put `len` bytes at the start of the buffer.
    Received { len: usize, source: PeerAddr },
    /// Receiving failed, in this way.
    ReceiveFailed(IoFailure),
    /// The echo was handed to the network.
    Sent,
    /// Sending the echo failed.
    SendFailed,
    /// The shutdown signal fired.
    Shutdown,
}

/// What the owner of the socket has to do next.
#[derive(Clone, Copy, Debug, PartialEq, Eq, Structural)]
pub enum DatagramAction {
    /// Receive into the buffer and wait for the shutdown signal at the same
    /// time; report whichever completes first.
    AwaitDatagram,
    /// Send the outgoing bytes to the destination, once.
    Send,
    /// Return from the loop with success.
    Stop,
    /// Return from the loop with the error that `outcome` gives.
    Fail,
}

/// The loop as a mathematical value.
pub struct DatagramView {
    pub phase: DatagramPhase,
    /// The whole buffer; its length is the largest payload that is echoed in
    /// full.
    pub buffer: Seq<u8>,
    /// How many bytes at the start of the buffer are the payload to echo.
    pub pending: nat,
    /// The sender of that payload, while the echo is under way.
    pub peer: Option<PeerAddr>,
}

impl DatagramView {
    /// The buffer fits in memory, the payload lies inside it, and there is a
    /// payload with a destination exactly while a send is awaited.
    pub open spec fn wf(self) -> bool {
        &&& self.buffer.len() <= usize::MAX
        &&& self.pending <= self.buffer.len()
        &&& (self.phase == DatagramPhase::Sending <==> self.peer is Some)
        &&& (self.phase != DatagramPhase::Sending ==> self.pending == 0)
    }

    /// The payload that goes back.
    pub open spec fn outgoing(self) -> Seq<u8> {
        self.buffer.take(self.pending as int)
    }

    pub open spec fn action(self) -> DatagramAction {
        match self.phase {
            DatagramPhase::Receiving => DatagramAction::AwaitDatagram,
            DatagramPhase::Sending => DatagramAction::Send,
            DatagramPhase::Stopped => DatagramAction::Stop,
            DatagramPhase::Failed(_) => DatagramAction::Fail,
        }
    }

    /// How the run ends, once the loop has ended: with success after a
    /// shutdown, with an error after a failed receive.
    pub open spec fn outcome(self) -> Option<Result<(), RuntimeError>> {
        match self.phase {
            DatagramPhase::Stopped => Some(Ok(())),
            DatagramPhase::Failed(failure) => Some(Err(RuntimeError::ReceiveFailed(failure))),
            _ => None,
        }
    }

    /// A receive cannot report more bytes than the buffer holds.
    pub open spec fn admits(self, event: DatagramEvent) -> bool {
        event matches DatagramEvent::Received { len, .. } ==> len <= self.buffer.len()
    }

    /// The loop after `event`. A failed send costs that one echo and nothing
    /// else; a failed receive ends the loop for good. An event that the
    /// current phase does not wait for changes nothing.
    pub open spec fn after(self, event: DatagramEvent) -> DatagramView {
        match (self.phase, event) {
            (DatagramPhase::Receiving, DatagramEvent::Received { len, source }) => DatagramView {
                phase: DatagramPhase::Sending,
                pending: len as nat,
                peer: Some(source),
                ..self
            },
            (DatagramPhase::Receiving, DatagramEvent::ReceiveFailed(failure)) => DatagramView {
                phase: DatagramPhase::Failed(failure),
                ..self
            },
            (DatagramPhase::Receiving, DatagramEvent::Shutdown) => DatagramView {
                phase: DatagramPhase::Stopped,
                ..self
            },
            (DatagramPhase::Sending, DatagramEvent::Sent) => DatagramView {
                phase: DatagramPhase::Receiving,
                pending: 0,
                peer: None,
                ..self
            },
            (DatagramPhase::Sending, DatagramEvent::SendFailed) => DatagramView {
                phase: DatagramPhase::Receiving,
                pending: 0,
                peer: None,
                ..self
            },
            _ => self,
        }
    }

    /// The loop once a receive has put `payload` at the start of its buffer.
    pub open spec fn filled(self, payload: Seq<u8>) -> DatagramView {
        DatagramView { buffer: payload + self.buffer.skip(payload.len() as int), ..self }
    }
}

/// The state of a running receive loop: a phase and a private buffer.
pub struct DatagramLoop {
    phase: DatagramPhase,
    buffer: Vec<u8>,
    pending: usize,
    peer: Option<PeerAddr>,
}

impl View for DatagramLoop {
    type V = DatagramView;

    closed spec fn view(&self) -> DatagramView {
        DatagramView {
            phase: self.phase,
            buffer: self.buffer@,
            pending: self.pending as nat,
            peer: self.peer,
        }
    }
}

impl DatagramLoop {
    /// A loop about to receive, with a zeroed buffer of `BUFFER_CAPACITY`
    /// bytes.
    pub fn new() -> (echo: Self)
        ensures
            echo@.wf(),
            echo@.phase == DatagramPhase::Receiving,
            echo@.pending == 0,
            echo@.peer is None,
            echo@.buffer == Seq::new(BUFFER_CAPACITY as nat, |i: int| 0u8),
    {
        Self::with_capacity(BUFFER_CAPACITY)
    }

    /// A loop about to receive, with a zeroed buffer of `capacity` bytes.
    pub fn with_capacity(capacity: usize) -> (echo: Self)
        ensures
            echo@.wf(),
            echo@.phase == DatagramPhase::Receiving,
            echo@.pending == 0,
            echo@.peer is None,
            echo@.buffer == Seq::new(capacity as nat, |i: int| 0u8),
    {
        let buffer = vec![0u8; capacity];
        assert(buffer@ =~= Seq::new(capacity as nat, |i: int| 0u8));
        DatagramLoop { phase: DatagramPhase::Receiving, buffer, pending: 0, peer: None }
    }

    /// The largest payload that is echoed in full.
    pub fn capacity(&self) -> (capacity: usize)
        ensures
            capacity == self@.buffer.len(),
    {
        self.buffer.len()
    }

    /// What the loop is waiting for.
    pub fn phase(&self) -> (phase: DatagramPhase)
        ensures
            phase == self@.phase,
    {
        self.phase
    }

    /// Whether the loop has ended through a shutdown.
    pub fn is_stopped(&self) -> (stopped: bool)
        ensures
            stopped == (self@.phase == DatagramPhase::Stopped),
    {
        match self.phase {
            DatagramPhase::Stopped => true,
            _ => false,
        }
    }

    /// What the run returns: nothing while the loop goes on, success once it
    /// was shut down, the error once receiving failed.
    pub fn outcome(&self) -> (outcome: Option<Result<(), RuntimeError>>)
        ensures
            outcome == self@.outcome(),
    {
        match self.phase {
            DatagramPhase::Stopped => Some(Ok(())),
            DatagramPhase::Failed(failure) => Some(Err(RuntimeError::ReceiveFailed(failure))),
            _ => None,
        }
    }

    /// What has to be done on the socket now.
    pub fn action(&self) -> (action: DatagramAction)
        ensures
            action == self@.action(),
    {
        match self.phase {
            DatagramPhase::Receiving => DatagramAction::AwaitDatagram,
            DatagramPhase::Sending => DatagramAction::Send,
            DatagramPhase::Stopped => DatagramAction::Stop,
            DatagramPhase::Failed(_) => DatagramAction::Fail,
        }
    }

    /// The buffer, for a receive to fill. Nothing but the bytes can change
    /// through it.
    pub fn buffer_mut(&mut self) -> (buffer: &mut [u8])
        ensures
            buffer@ == old(self)@.buffer,
            final(self)@ == (DatagramView { buffer: final(buffer)@, ..old(self)@ }),
    {
        self.buffer.as_mut_slice()
    }

    /// The payload to send: the first `pending` bytes of the buffer.
    pub fn outgoing(&self) -> (bytes: &[u8])
        requires
            self@.wf(),
        ensures
            bytes@ == self@.outgoing(),
    {
        vstd::slice::slice_subrange(self.buffer.as_slice(), 0, self.pending)
    }

    /// Where the payload goes: back to its sender.
    pub fn destination(&self) -> (peer: Option<PeerAddr>)
        ensures
            peer == self@.peer,
    {
        self.peer
    }

    /// Takes in what happened and says what to do next.
    pub fn step(&mut self, event: DatagramEvent) -> (action: DatagramAction)
        requires
            old(self)@.wf(),
            old(self)@.admits(event),
        ensures
            final(self)@ == old(self)@.after(event),
            final(self)@.wf(),
            action == final(self)@.action(),
    {
        match (self.phase, event) {
            (DatagramPhase::Receiving, DatagramEvent::Received { len, source }) => {
                self.phase = DatagramPhase::Sending;
                self.pending = len;
                self.peer = Some(source);
            },
            (DatagramPhase::Receiving, DatagramEvent::ReceiveFailed(failure)) => {
                self.phase = DatagramPhase::Failed(failure);
            },
            (DatagramPhase::Receiving, DatagramEvent::Shutdown) => {
                self.phase = DatagramPhase::Stopped;
            },
            (DatagramPhase::Sending, DatagramEvent::Sent) => {
                self.phase = DatagramPhase::Receiving;
                self.pending = 0;
                self.peer = None;
            },
            (DatagramPhase::Sending, DatagramEvent::SendFailed) => {
                self.phase = DatagramPhase::Receiving;
                self.pending = 0;
                self.peer = None;
            },
            _ => {},
        }
        self.action()
    }
}

/// A datagram echo server: one bound socket and the shutdown signal of its
/// loop.
pub struct UdpServer {
    socket: UdpSocket,
    signal: ShutdownSignal,
}

impl UdpServer {
    /// The one socket that the server receives on and answers from.
    pub closed spec fn endpoint(&self) -> UdpSocket {
        self.socket
    }

    /// The notifier behind the server's shutdown signal.
    pub closed spec fn notifier(&self) -> tokio::sync::Notify {
        self.signal.shared()
    }

    /// A server on a socket that is already bound, with a signal of its own.
    pub fn from_socket(socket: UdpSocket) -> (server: Self)
        ensures
            server.endpoint() == socket,
    {
        UdpServer { socket, signal: ShutdownSignal::new() }
    }

    /// Makes the server of an attempt to bind: a server on the socket if
    /// there is one, else the bind error that belongs to the failure.
    pub fn bind(bound: Result<UdpSocket, IoFailure>) -> (server: Result<Self, BindError>)
        ensures
            match bound {
                Ok(socket) => server matches Ok(s) && s.endpoint() == socket,
                Err(failure) => server matches Err(e) && e == BindError::of(failure),
            },
    {
        match bound {
            Ok(socket) => Ok(Self::from_socket(socket)),
            Err(failure) => Err(BindError::classify(failure)),
        }
    }

    /// The socket, for the loop.
    pub fn socket(&self) -> (socket: &UdpSocket)
        ensures
            *socket == self.endpoint(),
    {
        &self.socket
    }

    /// The signal that `shutdown` fires.
    pub fn signal(&self) -> (signal: &ShutdownSignal)
        ensures
            signal.shared() == self.notifier(),
    {
        &self.signal
    }

    /// The state that one run of the server starts from.
    pub fn echo_loop(&self) -> (echo: DatagramLoop)
        ensures
            echo@.wf(),
            echo@.phase == DatagramPhase::Receiving,
            echo@.pending == 0,
            echo@.peer is None,
            echo@.buffer == Seq::new(BUFFER_CAPACITY as nat, |i: int| 0u8),
    {
        DatagramLoop::new()
    }

    /// Fires the shutdown signal once and returns. The loop is the only one
    /// that waits for it, so one trigger is enough.
    pub fn shutdown(&self) {
        self.signal.trigger();
    }
}

/// What a receive into `capacity` bytes keeps of a datagram: all of it if it
/// fits, else its first `capacity` bytes. The rest is lost.
pub open spec fn delivered(payload: Seq<u8>, capacity: nat) -> Seq<u8> {
    if payload.len() <= capacity {
        payload
    } else {
        payload.take(capacity as int)
    }
}

/// What goes back for a datagram with this payload.
pub open spec fn reply(v: DatagramView, payload: Seq<u8>, source: PeerAddr) -> DatagramView {
    let kept = delivered(payload, v.buffer.len());
    v.filled(kept).after(DatagramEvent::Received { len: kept.len() as usize, source })
}

/// A datagram that fits the buffer is answered with its own payload, byte for
/// byte, sent to where it came from; a longer one with its first buffer full.
/// After the send, or its failure, the loop receives again.
pub proof fn lemma_datagram_echo(v: DatagramView, payload: Seq<u8>, source: PeerAddr)
    requires
        v.wf(),
        v.phase == DatagramPhase::Receiving,
    ensures
        reply(v, payload, source).action() == DatagramAction::Send,
        reply(v, payload, source).outgoing() == delivered(payload, v.buffer.len()),
        payload.len() <= v.buffer.len() ==> reply(v, payload, source).outgoing() == payload,
        payload.len() > v.buffer.len() ==> reply(v, payload, source).outgoing() == payload.take(
            v.buffer.len() as int,
        ),
        reply(v, payload, source).peer == Some(source),
        reply(v, payload, source).wf(),
        reply(v, payload, source).after(DatagramEvent::Sent).wf(),
        reply(v, payload, source).after(DatagramEvent::Sent).phase == DatagramPhase::Receiving,
        reply(v, payload, source).after(DatagramEvent::SendFailed) == reply(
            v,
            payload,
            source,
        ).after(DatagramEvent::Sent),
        reply(v, payload, source).after(DatagramEvent::Sent).buffer.len() == v.buffer.len(),
{
    let kept = delivered(payload, v.buffer.len());
    let filled = v.filled(kept);
    assert(filled.buffer.len() == v.buffer.len());
    assert(filled.buffer.take(kept.len() as int) =~= kept);
}

/// A loop that has ended stays as it ended, whatever is reported to it.
pub proof fn lemma_ended_is_final(v: DatagramView, event: DatagramEvent)
    requires
        v.outcome() is Some,
    ensures
        v.after(event) == v,
        v.action() == DatagramAction::Stop || v.action() == DatagramAction::Fail,
{
}

/// A failed receive is fatal and reaches the caller: the loop ends at once,
/// the run returns the error, and no shutdown afterwards turns that into
/// success.
pub proof fn lemma_failed_receive_is_surfaced(v: DatagramView, failure: IoFailure)
    requires
        v.wf(),
        v.phase == DatagramPhase::Receiving,
    ensures
        v.after(DatagramEvent::ReceiveFailed(failure)).action() == DatagramAction::Fail,
        v.after(DatagramEvent::ReceiveFailed(failure)).outcome() == Some(
            Err::<(), RuntimeError>(RuntimeError::ReceiveFailed(failure)),
        ),
        v.after(DatagramEvent::ReceiveFailed(failure)).after(DatagramEvent::Shutdown) == v.after(
            DatagramEvent::ReceiveFailed(failure),
        ),
        v.after(DatagramEvent::ReceiveFailed(failure)).wf(),
{
}

/// Success is reached through the shutdown signal alone, seen while the loop
/// waits for a datagram; an error through a failed receive alone.
pub proof fn lemma_how_a_loop_ends(v: DatagramView, event: DatagramEvent)
    requires
        v.outcome() is None,
        v.after(event).outcome() is Some,
    ensures
        v.phase == DatagramPhase::Receiving,
        v.after(event).outcome() == Some(Ok::<(), RuntimeError>(())) <==> event
            == DatagramEvent::Shutdown,
        v.after(event).outcome() is Some && v.after(event).outcome() != Some(
            Ok::<(), RuntimeError>(()),
        ) <==> event is ReceiveFailed,
{
}

/// Every step keeps a sound loop sound and its capacity as it was.
pub proof fn lemma_step_keeps_wf(v: DatagramView, event: DatagramEvent)
    requires
        v.wf(),
        v.admits(event),
    ensures
        v.after(event).wf(),
        v.after(event).buffer == v.buffer,
{
}

/// The loop after one trigger of the signal, if the loop is the task that
/// the trigger wakes.
pub open spec fn after_trigger(v: DatagramView, signal: SignalState) -> DatagramView {
    if signal.woken() is Some {
        v.after(DatagramEvent::Shutdown)
    } else {
        v
    }
}

/// A loop that waits, with no datagram at hand, ends on one trigger: it is
/// the only task on the signal, so it is the one woken, and it stops with
/// success.
pub proof fn lemma_shutdown_stops_the_loop(v: DatagramView, signal: SignalState)
    requires
        v.wf(),
        v.phase == DatagramPhase::Receiving,
        signal.wf(),
        signal.waiting.len() == 1,
    ensures
        after_trigger(v, signal).phase == DatagramPhase::Stopped,
        after_trigger(v, signal).action() == DatagramAction::Stop,
        after_trigger(v, signal).outcome() == Some(Ok::<(), RuntimeError>(())),
        signal.triggered().waiting.len() == 0,
{
}

/// A trigger that comes while the loop sends is not lost: it stays as a
/// permit, the loop finds it when it next waits, and stops then.
pub proof fn lemma_shutdown_waits_for_a_send(v: DatagramView, signal: SignalState)
    requires
        v.wf(),
        v.phase == DatagramPhase::Sending,
        signal.wf(),
        signal.waiting.len() == 0,
    ensures
        v.after(DatagramEvent::Shutdown) == v,
        signal.triggered().passes(),
        v.after(DatagramEvent::Sent).after(DatagramEvent::Shutdown).phase
            == DatagramPhase::Stopped,
        v.after(DatagramEvent::SendFailed).after(DatagramEvent::Shutdown).phase
            == DatagramPhase::Stopped,
{
}

} // verus!
