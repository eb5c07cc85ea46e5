//! The supervisor side: starting a worker for a zone and the handle that
//! feeds it.
//!
//! `start_logger` consults the identity table once; a zone without a
//! record gets no worker, no channels and no file. For a known zone it
//! builds the two channels — the unbounded event channel, so producers
//! never block on a slow worker, and the control channel of capacity one,
//! kept apart so a signal is never starved behind queued events — and a
//! worker whose identity and path are frozen from the record found now.
//! The caller hands the `WorkerTask` to the worker's own execution unit
//! and keeps the `Logger`.

use vstd::prelude::*;

use bytes::Bytes;
use crossbeam::channel::Receiver;
use crossbeam::channel::Sender;

use crate::identity::IdentityTable;
use crate::identity::Zonedid;
use crate::identity::alias_chars;
use crate::worker::LoggerSignal;
use crate::worker::Worker;
use crate::worker::path_spec;

verus! {

/// How many bytes a worker buffers before handing a chunk back to its
/// file: large, so a burst of events costs few writes.
pub const EVENT_BUFFER_CAPACITY: usize = 10 * 1024 * 1024;

/// A raw event payload: an opaque, cheaply cloned byte buffer. Only the
/// dispatch side and the parser look inside it.
#[verifier::external_type_specification]
#[verifier::external_body]
pub struct ExBytes(Bytes);

/// The sending half of a channel.
#[verifier::external_type_specification]
#[verifier::external_body]
#[verifier::reject_recursive_types(T)]
pub struct ExSender<T>(Sender<T>);

/// The receiving half of a channel.
#[verifier::external_type_specification]
#[verifier::external_body]
#[verifier::reject_recursive_types(T)]
pub struct ExReceiver<T>(Receiver<T>);

/// Relies on crossbeam's `unbounded`: a channel that never blocks or
/// refuses a send while its receiver lives.
#[verifier::external_body]
fn event_channel() -> (Sender<Bytes>, Receiver<Bytes>) {
    crossbeam::channel::unbounded()
}

/// Relies on crossbeam's `bounded`: a channel that holds at most one
/// pending signal.
#[verifier::external_body]
fn signal_channel() -> (Sender<LoggerSignal>, Receiver<LoggerSignal>) {
    crossbeam::channel::bounded(1)
}

/// Relies on crossbeam's `Sender::send`: it never panics, and it returns
/// the message itself as the error exactly when the channel is
/// disconnected, that is, when the worker holding the receiver has exited.
#[verifier::external_body]
fn send_event(sender: &Sender<Bytes>, payload: Bytes) -> (r: Result<(), Bytes>)
    ensures
        r matches Err(back) ==> back == payload,
{
    sender.send(payload).map_err(|e| e.0)
}

/// Relies on crossbeam's `Sender::send`, as `send_event` does. On a full
/// control channel it blocks until the worker takes the pending signal or
/// exits; it never panics.
#[verifier::external_body]
fn send_signal(sender: &Sender<LoggerSignal>, signal: LoggerSignal) -> (r: Result<
    (),
    LoggerSignal,
>)
    ensures
        r matches Err(back) ==> back == signal,
{
    sender.send(signal).map_err(|e| e.0)
}

/// A send that failed because the worker has already exited; it hands the
/// undelivered message back.
#[derive(Debug)]
pub struct SendError<T>(pub T);

/// The caller-facing handle over a running worker: the sending ends of
/// its two channels.
pub struct Logger {
    sender: Sender<Bytes>,
    signal: Sender<LoggerSignal>,
}

impl Logger {
    /// Enqueues a raw payload for the worker. This never blocks — the
    /// event channel is unbounded — and never panics; it fails exactly
    /// when the worker has exited, handing the payload back so the caller
    /// can decide to drop it or to start a fresh worker.
    pub fn send(&self, payload: Bytes) -> (r: Result<(), SendError<Bytes>>)
        ensures
            r matches Err(e) ==> e.0 == payload,
    {
        match send_event(&self.sender, payload) {
            Ok(()) => Ok(()),
            Err(back) => Err(SendError(back)),
        }
    }

    /// Enqueues `Shutdown`. After the worker has already exited the call
    /// fails cleanly instead of panicking, so a second shutdown is safe.
    pub fn shutdown(&self) -> (r: Result<(), SendError<LoggerSignal>>)
        ensures
            r matches Err(e) ==> e.0 is Shutdown,
    {
        match send_signal(&self.signal, LoggerSignal::Shutdown) {
            Ok(()) => Ok(()),
            Err(back) => Err(SendError(back)),
        }
    }
}

/// What the worker's execution unit takes: the receiving ends of the two
/// channels and the worker itself, ready in `Starting`.
pub struct WorkerTask {
    pub events: Receiver<Bytes>,
    pub signal: Receiver<LoggerSignal>,
    pub worker: Worker,
}

/// Starts the logging of a zone: a handle and a worker task when the
/// identity table knows the zone now, nothing when it does not — an
/// unknown zone gets no worker, no channels and no file. The worker's
/// instance id, alias and path come from the record found here and stay
/// frozen for the worker's life.
pub fn start_logger(zonedid: Zonedid, table: &IdentityTable) -> (r: Option<(Logger, WorkerTask)>)
    ensures
        r is Some <==> table@.contains_key(zonedid),
        r matches Some(pair) ==> {
            let record = table@[zonedid];
            &&& pair.1.worker.phase() is Starting
            &&& pair.1.worker.vm_chars() == record.uuid@
            &&& pair.1.worker.alias_view() == alias_chars(record.alias)
            &&& pair.1.worker.path_chars() == path_spec(record.owner_uuid@, record.uuid@)
            &&& pair.1.worker.cap() == EVENT_BUFFER_CAPACITY
            &&& pair.1.worker.flushed() == Seq::<u8>::empty()
            &&& pair.1.worker.buffered() == Seq::<u8>::empty()
        },
{
    match table.lookup(zonedid) {
        Some(record) => {
            let worker = Worker::new(record, EVENT_BUFFER_CAPACITY);
            let (event_tx, event_rx) = event_channel();
            let (signal_tx, signal_rx) = signal_channel();
            Some(
                (
                    Logger { sender: event_tx, signal: signal_tx },
                    WorkerTask { events: event_rx, signal: signal_rx, worker },
                ),
            )
        },
        None => None,
    }
}

} // verus!
