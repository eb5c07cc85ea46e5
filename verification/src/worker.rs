//! The per-zone worker: a state machine over the write path.
//!
//! A worker resolves its file path, enriches each dequeued event with the
//! identity captured at start, frames it as one JSON line, and buffers the
//! line. The identity (instance id and alias) is resolved once, when the
//! worker starts, and kept for the worker's whole life: a later change of
//! the zone's record does not reach an already-running worker.
//!
//! The worker itself owns the output buffering; the surrounding process
//! performs the waits and the file writes. Whenever a step hands back a
//! chunk of bytes, the caller appends it to the worker's file before the
//! next step; `flushed()` is everything handed back so far, and
//! `log()` — flushed plus still-buffered bytes — is the worker's whole
//! output, which the contracts tie to the sequence of handled events.

use vstd::prelude::*;
use vstd::string::StringExecFns;
use vstd::utf8::encode_utf8;

use crate::event::EventRecord;
use crate::identity::IdentityRecord;
use crate::identity::alias_chars;
use crate::json::format_line;
use crate::json::line_spec;

verus! {

/// A signal that can be sent to the logger.
#[derive(Debug)]
pub enum LoggerSignal {
    /// Tell the worker to flush and shut down.
    Shutdown,
    /// Tell the worker to rotate the log file.
    Rotate,
}

/// The lifecycle of a worker.
pub enum WorkerState {
    /// The path is resolved; the file is not open yet.
    Starting,
    /// The event loop is being served.
    Running,
    /// A shutdown was taken; the buffer has been handed back for the
    /// final write and the worker awaits its exit.
    Draining,
    /// Terminal: the worker's execution unit has exited.
    Stopped,
}

/// Where the log of a zone lives: a fixed root, then the owning tenant,
/// then the instance, then the fixed name of the active log.
pub open spec fn path_spec(owner: Seq<char>, vm: Seq<char>) -> Seq<char> {
    "/var/log/firewall/"@ + owner + "/"@ + vm + "/current.log"@
}

/// Builds the log path for a tenant and an instance.
pub fn log_path(owner: &str, vm: &str) -> (r: String)
    ensures
        r@ == path_spec(owner@, vm@),
{
    let mut p = String::new();
    p.append("/var/log/firewall/");
    p.append(owner);
    p.append("/");
    p.append(vm);
    p.append("/current.log");
    proof {
        assert(p@ =~= path_spec(owner@, vm@));
    }
    p
}

/// The per-zone worker.
pub struct Worker {
    state: WorkerState,
    vm: String,
    alias: String,
    path: String,
    capacity: usize,
    buffer: Vec<u8>,
    written: Ghost<Seq<u8>>,
}

impl Worker {
    /// The lifecycle state.
    pub closed spec fn phase(self) -> WorkerState {
        self.state
    }

    /// The instance id captured at start.
    pub closed spec fn vm_chars(self) -> Seq<char> {
        self.vm@
    }

    /// The alias captured at start (empty when the record had none).
    pub closed spec fn alias_view(self) -> Seq<char> {
        self.alias@
    }

    /// The resolved output path.
    pub closed spec fn path_chars(self) -> Seq<char> {
        self.path@
    }

    /// The buffer capacity: a step hands its buffer back once the buffer
    /// has grown to this many bytes.
    pub closed spec fn cap(self) -> usize {
        self.capacity
    }

    /// The bytes still held in the buffer.
    pub closed spec fn buffered(self) -> Seq<u8> {
        self.buffer@
    }

    /// The bytes already handed back to the caller for the file.
    pub closed spec fn flushed(self) -> Seq<u8> {
        self.written@
    }

    /// Everything this worker has produced: handed back plus buffered.
    pub open spec fn log(self) -> Seq<u8> {
        self.flushed() + self.buffered()
    }

    /// The line this worker writes for one event.
    pub open spec fn line_for(self, ev: Seq<(Seq<u8>, Seq<u8>)>) -> Seq<u8> {
        line_spec(ev, encode_utf8(self.vm_chars()), encode_utf8(self.alias_view()))
    }

    /// What a step never changes: the identity, the path and the capacity.
    pub open spec fn same_setup(self, other: Worker) -> bool {
        &&& self.vm_chars() == other.vm_chars()
        &&& self.alias_view() == other.alias_view()
        &&& self.path_chars() == other.path_chars()
        &&& self.cap() == other.cap()
    }

    /// A worker for the zone whose identity is `record`, with nothing
    /// produced yet. The instance id, the alias and the path are frozen
    /// here, at start time.
    pub fn new(record: &IdentityRecord, capacity: usize) -> (w: Worker)
        ensures
            w.phase() is Starting,
            w.vm_chars() == record.uuid@,
            w.alias_view() == alias_chars(record.alias),
            w.path_chars() == path_spec(record.owner_uuid@, record.uuid@),
            w.cap() == capacity,
            w.flushed() == Seq::<u8>::empty(),
            w.buffered() == Seq::<u8>::empty(),
    {
        let path = log_path(record.owner_uuid.as_str(), record.uuid.as_str());
        Worker {
            state: WorkerState::Starting,
            vm: record.uuid.clone(),
            alias: record.alias_or_empty(),
            path,
            capacity,
            buffer: Vec::new(),
            written: Ghost(Seq::empty()),
        }
    }

    /// The resolved output path, for the caller that opens the file.
    pub fn path(&self) -> (r: &str)
        ensures
            r@ == self.path_chars(),
    {
        self.path.as_str()
    }

    /// Enters the event loop, once the caller has opened the file. A
    /// worker whose file cannot be opened never runs: the caller drops it.
    pub fn start(&mut self)
        requires
            old(self).phase() is Starting,
        ensures
            final(self).phase() is Running,
            old(self).same_setup(*final(self)),
            final(self).flushed() == old(self).flushed(),
            final(self).buffered() == old(self).buffered(),
    {
        self.state = WorkerState::Running;
    }

    /// Takes one dequeued event: enriches it with the captured identity,
    /// frames it as one JSON line, and buffers the line. When the buffer
    /// has reached the capacity, the whole buffer is handed back for the
    /// caller to append to the file now.
    pub fn handle_event(&mut self, ev: &EventRecord) -> (out: Option<Vec<u8>>)
        requires
            old(self).phase() is Running,
        ensures
            final(self).phase() is Running,
            old(self).same_setup(*final(self)),
            final(self).log() == old(self).log() + old(self).line_for(ev@),
            match out {
                Some(chunk) => final(self).flushed() == old(self).flushed() + chunk@
                    && final(self).buffered() == Seq::<u8>::empty() && old(self).buffered().len()
                    + old(self).line_for(ev@).len() >= old(self).cap(),
                None => final(self).flushed() == old(self).flushed()
                    && final(self).buffered().len() < old(self).cap(),
            },
    {
        let mut line = format_line(ev, self.vm.as_str(), self.alias.as_str());
        self.buffer.append(&mut line);
        if self.buffer.len() >= self.capacity {
            let mut chunk: Vec<u8> = Vec::new();
            chunk.append(&mut self.buffer);
            self.written = Ghost(self.written@ + chunk@);
            proof {
                assert(self.log() =~= old(self).log() + old(self).line_for(ev@));
            }
            Some(chunk)
        } else {
            proof {
                assert(self.log() =~= old(self).log() + old(self).line_for(ev@));
            }
            None
        }
    }

    /// Takes one control signal. `Rotate` is the hook for future rotation
    /// and changes nothing. `Shutdown` drains: the whole buffer is handed
    /// back for the final write and the worker leaves the event loop.
    pub fn handle_signal(&mut self, signal: LoggerSignal) -> (out: Option<Vec<u8>>)
        requires
            old(self).phase() is Running,
        ensures
            old(self).same_setup(*final(self)),
            final(self).log() == old(self).log(),
            signal is Rotate ==> final(self).phase() is Running && out is None
                && final(self).flushed() == old(self).flushed(),
            signal is Shutdown ==> final(self).phase() is Draining
                && final(self).buffered() == Seq::<u8>::empty()
                && final(self).flushed() == old(self).log()
                && (out matches Some(chunk) && chunk@ == old(self).buffered()),
    {
        match signal {
            LoggerSignal::Rotate => None,
            LoggerSignal::Shutdown => {
                self.state = WorkerState::Draining;
                let mut chunk: Vec<u8> = Vec::new();
                chunk.append(&mut self.buffer);
                self.written = Ghost(self.written@ + chunk@);
                proof {
                    assert(self.log() =~= old(self).log());
                }
                Some(chunk)
            },
        }
    }

    /// The terminal transition: the drained worker's execution unit exits.
    pub fn complete(&mut self)
        requires
            old(self).phase() is Draining,
        ensures
            final(self).phase() is Stopped,
            old(self).same_setup(*final(self)),
            final(self).flushed() == old(self).flushed(),
            final(self).buffered() == old(self).buffered(),
    {
        self.state = WorkerState::Stopped;
    }
}

} // verus!
