//! The serial session: a connect/disconnect state machine that owns the
//! consumer's ends of four channels and hands the other ends to a reader task
//! and a writer task. The port itself and the threads that run the tasks
//! belong to the caller; the session only decides and signals.

use vstd::prelude::*;
use crate::text::{decode_lossy, utf8_lossy};
use crate::channel::recv_within;

verus! {

/// How long the writer task waits for outbound text before it looks for a
/// shutdown signal again.
pub const WRITER_POLL_MILLIS: u64 = 100;

/// Read timeout the port is opened with, so that the reader task looks for a
/// shutdown signal at least this often.
pub const READ_TIMEOUT_MILLIS: u64 = 10;

/// Why the port could not be opened.
#[derive(Clone, Copy, Debug, PartialEq, Eq, Structural)]
pub enum OpenFailure {
    NotFound,
    PermissionDenied,
    Busy,
    Other,
}

/// Why `start` did not connect.
#[derive(Clone, Copy, Debug, PartialEq, Eq, Structural)]
pub enum ConnectError {
    /// A connection is already active; it was left as it was.
    AlreadyConnected,
    /// The port could not be opened.
    PortUnavailable(OpenFailure),
}

/// Why `stop` did not signal.
#[derive(Clone, Copy, Debug, PartialEq, Eq, Structural)]
pub enum StopError {
    /// No connection was active, so there were no tasks to signal.
    NotConnected,
}

/// What a caller can observe of a session: whether it is connected, and the
/// texts handed to the current connection's writer, in call order.
pub struct SessionView {
    pub connected: bool,
    pub sent: Seq<Seq<char>>,
}

pub open spec fn disconnected_view() -> SessionView {
    SessionView { connected: false, sent: Seq::empty() }
}

pub open spec fn start_outcome(v: SessionView, opened: Result<(), OpenFailure>) -> Result<
    (),
    ConnectError,
> {
    if v.connected {
        Err(ConnectError::AlreadyConnected)
    } else {
        match opened {
            Ok(()) => Ok(()),
            Err(f) => Err(ConnectError::PortUnavailable(f)),
        }
    }
}

pub open spec fn after_start(v: SessionView, opened: Result<(), OpenFailure>) -> SessionView {
    if start_outcome(v, opened) is Ok {
        SessionView { connected: true, sent: Seq::empty() }
    } else {
        v
    }
}

pub open spec fn stop_outcome(v: SessionView) -> Result<(), StopError> {
    if v.connected {
        Ok(())
    } else {
        Err(StopError::NotConnected)
    }
}

pub open spec fn after_stop(v: SessionView) -> SessionView {
    if v.connected {
        disconnected_view()
    } else {
        v
    }
}

pub open spec fn after_send(v: SessionView, text: Seq<char>) -> SessionView {
    if v.connected {
        SessionView { connected: true, sent: v.sent.push(text) }
    } else {
        v
    }
}

/// The consumer's ends of one connection's channels.
struct Link {
    reader_stop: flume::Sender<()>,
    writer_stop: flume::Sender<()>,
    inbound: flume::Receiver<String>,
    outbound: flume::Sender<String>,
}

/// A serial session, reused across connect/disconnect cycles.
pub struct Serial {
    link: Option<Link>,
    sent: Ghost<Seq<Seq<char>>>,
}

/// The reader task's ends: where it looks for shutdown, and where it puts
/// the text it read.
pub struct ReaderTask {
    stop: flume::Receiver<()>,
    inbound: flume::Sender<String>,
}

/// The writer task's ends: where it looks for shutdown, and where it takes
/// the text to write from.
pub struct WriterTask {
    stop: flume::Receiver<()>,
    outbound: flume::Receiver<String>,
}

/// The two tasks that one successful `start` hands out, each to run on a
/// thread of its own.
pub struct Tasks {
    pub reader: ReaderTask,
    pub writer: WriterTask,
}

impl View for Serial {
    type V = SessionView;

    closed spec fn view(&self) -> SessionView {
        SessionView { connected: self.link is Some, sent: self.sent@ }
    }
}

impl Serial {
    /// A disconnected session.
    pub fn new() -> (r: Serial)
        ensures
            r@ == disconnected_view(),
    {
        Serial { link: None, sent: Ghost(Seq::empty()) }
    }

    pub fn is_connected(&self) -> (r: bool)
        ensures
            r == self@.connected,
    {
        self.link.is_some()
    }

    /// Connects, given the outcome of opening the port. A session that is
    /// already connected is left alone; otherwise a failed open leaves it
    /// disconnected, and a successful one connects it over fresh channels and
    /// hands out the two tasks to run.
    pub fn start(&mut self, opened: Result<(), OpenFailure>) -> (r: Result<Tasks, ConnectError>)
        ensures
            r is Ok <==> start_outcome(old(self)@, opened) is Ok,
            r matches Err(e) ==> start_outcome(old(self)@, opened) == Err::<(), ConnectError>(e),
            final(self)@ == after_start(old(self)@, opened),
    {
        if self.link.is_some() {
            return Err(ConnectError::AlreadyConnected);
        }
        match opened {
            Err(f) => Err(ConnectError::PortUnavailable(f)),
            Ok(()) => {
                let (reader_stop, reader_stop_rx) = flume::unbounded();
                let (writer_stop, writer_stop_rx) = flume::unbounded();
                let (inbound_tx, inbound) = flume::unbounded();
                let (outbound, outbound_rx) = flume::unbounded();
                self.link = Some(Link { reader_stop, writer_stop, inbound, outbound });
                self.sent = Ghost(Seq::empty());
                Ok(
                    Tasks {
                        reader: ReaderTask { stop: reader_stop_rx, inbound: inbound_tx },
                        writer: WriterTask { stop: writer_stop_rx, outbound: outbound_rx },
                    },
                )
            },
        }
    }

    /// Disconnects: one shutdown token to each task, without waiting for
    /// them to exit. A session that is not connected is left alone.
    pub fn stop(&mut self) -> (r: Result<(), StopError>)
        ensures
            r == stop_outcome(old(self)@),
            final(self)@ == after_stop(old(self)@),
    {
        match self.link.take() {
            None => Err(StopError::NotConnected),
            Some(link) => {
                // A task that has already gone needs no signal.
                let _ = link.writer_stop.send(());
                let _ = link.reader_stop.send(());
                self.sent = Ghost(Seq::empty());
                Ok(())
            },
        }
    }

    /// Queues text for the writer task. Without a connection the text is
    /// dropped.
    pub fn send(&mut self, data: &str)
        ensures
            final(self)@ == after_send(old(self)@, data@),
    {
        if let Some(link) = &self.link {
            let _ = link.outbound.send(String::from_str(data));
            self.sent = Ghost(self.sent@.push(data@));
        }
    }

    /// The next chunk of text the reader task delivered, if one is waiting.
    /// Never blocks; without a connection there is none.
    pub fn try_recv(&self) -> (r: Option<String>)
        ensures
            !self@.connected ==> r is None,
    {
        match &self.link {
            None => None,
            Some(link) => match link.inbound.try_recv() {
                Ok(text) => Some(text),
                Err(_) => None,
            },
        }
    }
}

/// Whether a task should exit, given what it found on its shutdown channel:
/// a token, or a session that has gone away, ends it.
pub fn shutdown_observed(signal: &Result<(), flume::TryRecvError>) -> (r: bool)
    ensures
        r <==> !(signal matches Err(flume::TryRecvError::Empty)),
{
    match signal {
        Ok(()) => true,
        Err(flume::TryRecvError::Disconnected) => true,
        Err(flume::TryRecvError::Empty) => false,
    }
}

/// The text the reader task delivers for one read.
pub fn decode_chunk(bytes: &[u8]) -> (r: String)
    ensures
        r@ == utf8_lossy(bytes@),
{
    decode_lossy(bytes)
}

impl ReaderTask {
    /// Looks for a shutdown signal without blocking.
    pub fn should_stop(&self) -> bool {
        shutdown_observed(&self.stop.try_recv())
    }

    /// Decodes the bytes of one read and passes the text to the session.
    /// Returns false when the session side has gone away.
    pub fn deliver(&self, bytes: &[u8]) -> bool {
        self.inbound.send(decode_chunk(bytes)).is_ok()
    }
}

impl WriterTask {
    /// Looks for a shutdown signal without blocking.
    pub fn should_stop(&self) -> bool {
        shutdown_observed(&self.stop.try_recv())
    }

    /// Waits a bounded time for the next text to write.
    pub fn next_outbound(&self) -> Option<String> {
        match recv_within(&self.outbound, WRITER_POLL_MILLIS) {
            Ok(text) => Some(text),
            Err(_) => None,
        }
    }
}

/// A second `stop` right after a first one changes nothing and reports that
/// no connection was active, whatever state the session was in.
pub proof fn lemma_stop_twice(v: SessionView)
    ensures
        after_stop(after_stop(v)) == after_stop(v),
        stop_outcome(after_stop(v)) == Err::<(), StopError>(StopError::NotConnected),
{
}

/// On a disconnected session `send` changes nothing: the text is not queued.
pub proof fn lemma_send_disconnected_is_noop(v: SessionView, text: Seq<char>)
    requires
        !v.connected,
    ensures
        after_send(v, text) == v,
{
}

/// Texts handed to a connection's writer are kept in the order of the
/// `send` calls.
pub proof fn lemma_send_keeps_order(v: SessionView, a: Seq<char>, b: Seq<char>)
    requires
        v.connected,
    ensures
        after_send(after_send(v, a), b).sent == v.sent + seq![a, b],
{
    assert(after_send(after_send(v, a), b).sent =~= v.sent + seq![a, b]);
}

} // verus!
