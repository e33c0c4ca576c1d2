//! Limits of the candidate Iroh transport, and the bookkeeping it does for its owned tasks and
//! for closing a connection once.

use std::time::Duration;

use vstd::prelude::*;

use crate::time::{duration_from_millis, milliseconds};

verus! {

pub const DEFAULT_CONTROL_QUEUE_CAPACITY: usize = 8;

pub const DEFAULT_INCOMING_STREAM_QUEUE_CAPACITY: usize = 8;

pub const DEFAULT_OUTGOING_STREAM_CAPACITY: usize = 8;

pub const DEFAULT_STREAM_CHUNK_QUEUE_CAPACITY: usize = 8;

/// A 256 KiB control frame and its 4-byte length prefix.
pub const DEFAULT_MAX_CONTROL_FRAME_BYTES: usize = 262148;

/// A 4 KiB opening frame and its 4-byte length prefix.
pub const DEFAULT_MAX_OPENING_FRAME_BYTES: usize = 4100;

pub const DEFAULT_MAX_CHUNK_BYTES: usize = 65536;

pub const DEFAULT_MAX_CONCURRENT_REMOTE_UNI_STREAMS: u32 = 32;

pub const DEFAULT_MAX_CONCURRENT_REMOTE_BI_STREAMS: u32 = 1;

pub const DEFAULT_STREAM_RECEIVE_WINDOW: u64 = 524288;

pub const DEFAULT_CONNECTION_RECEIVE_WINDOW: u64 = 4194304;

pub const DEFAULT_IDLE_TIMEOUT_MS: u64 = 30000;

/// The limits of a candidate transport, every one of them nonzero.
#[derive(Debug, Clone, Copy, PartialEq, Eq, Structural)]
pub struct CandidateConfig {
    control_queue_capacity: usize,
    incoming_stream_queue_capacity: usize,
    outgoing_stream_capacity: usize,
    stream_chunk_queue_capacity: usize,
    max_control_frame_bytes: usize,
    max_opening_frame_bytes: usize,
    max_chunk_bytes: usize,
    max_concurrent_remote_uni_streams: u32,
    max_concurrent_remote_bi_streams: u32,
    stream_receive_window: u64,
    connection_receive_window: u64,
    idle_timeout_ms: u64,
}

pub struct CandidateConfigView {
    pub control_queue_capacity: usize,
    pub incoming_stream_queue_capacity: usize,
    pub outgoing_stream_capacity: usize,
    pub stream_chunk_queue_capacity: usize,
    pub max_control_frame_bytes: usize,
    pub max_opening_frame_bytes: usize,
    pub max_chunk_bytes: usize,
    pub max_concurrent_remote_uni_streams: u32,
    pub max_concurrent_remote_bi_streams: u32,
    pub stream_receive_window: u64,
    pub connection_receive_window: u64,
    pub idle_timeout_ms: u64,
}

impl View for CandidateConfig {
    type V = CandidateConfigView;

    closed spec fn view(&self) -> CandidateConfigView {
        CandidateConfigView {
            control_queue_capacity: self.control_queue_capacity,
            incoming_stream_queue_capacity: self.incoming_stream_queue_capacity,
            outgoing_stream_capacity: self.outgoing_stream_capacity,
            stream_chunk_queue_capacity: self.stream_chunk_queue_capacity,
            max_control_frame_bytes: self.max_control_frame_bytes,
            max_opening_frame_bytes: self.max_opening_frame_bytes,
            max_chunk_bytes: self.max_chunk_bytes,
            max_concurrent_remote_uni_streams: self.max_concurrent_remote_uni_streams,
            max_concurrent_remote_bi_streams: self.max_concurrent_remote_bi_streams,
            stream_receive_window: self.stream_receive_window,
            connection_receive_window: self.connection_receive_window,
            idle_timeout_ms: self.idle_timeout_ms,
        }
    }
}

impl CandidateConfig {
    #[verifier::type_invariant]
    spec fn all_nonzero(self) -> bool {
        &&& self.control_queue_capacity > 0
        &&& self.incoming_stream_queue_capacity > 0
        &&& self.outgoing_stream_capacity > 0
        &&& self.stream_chunk_queue_capacity > 0
        &&& self.max_control_frame_bytes > 0
        &&& self.max_opening_frame_bytes > 0
        &&& self.max_chunk_bytes > 0
        &&& self.max_concurrent_remote_uni_streams > 0
        &&& self.max_concurrent_remote_bi_streams > 0
        &&& self.stream_receive_window > 0
        &&& self.connection_receive_window > 0
        &&& self.idle_timeout_ms > 0
    }

    /// The same limits with another control queue capacity and control frame size.
    pub fn with_control_limits(self, control_queue_capacity: usize, max_control_frame_bytes: usize) -> (r:
        Self)
        requires
            control_queue_capacity > 0,
            max_control_frame_bytes > 0,
        ensures
            r@ == (CandidateConfigView {
                control_queue_capacity,
                max_control_frame_bytes,
                ..self@
            }),
    {
        proof {
            use_type_invariant(&self);
        }
        CandidateConfig { control_queue_capacity, max_control_frame_bytes, ..self }
    }

    pub fn control_queue_capacity(self) -> (r: usize)
        ensures
            r == self@.control_queue_capacity,
            r > 0,
    {
        proof {
            use_type_invariant(&self);
        }
        self.control_queue_capacity
    }

    pub fn incoming_stream_queue_capacity(self) -> (r: usize)
        ensures
            r == self@.incoming_stream_queue_capacity,
            r > 0,
    {
        proof {
            use_type_invariant(&self);
        }
        self.incoming_stream_queue_capacity
    }

    pub fn outgoing_stream_capacity(self) -> (r: usize)
        ensures
            r == self@.outgoing_stream_capacity,
            r > 0,
    {
        proof {
            use_type_invariant(&self);
        }
        self.outgoing_stream_capacity
    }

    pub fn stream_chunk_queue_capacity(self) -> (r: usize)
        ensures
            r == self@.stream_chunk_queue_capacity,
            r > 0,
    {
        proof {
            use_type_invariant(&self);
        }
        self.stream_chunk_queue_capacity
    }

    pub fn max_control_frame_bytes(self) -> (r: usize)
        ensures
            r == self@.max_control_frame_bytes,
            r > 0,
    {
        proof {
            use_type_invariant(&self);
        }
        self.max_control_frame_bytes
    }

    pub fn max_opening_frame_bytes(self) -> (r: usize)
        ensures
            r == self@.max_opening_frame_bytes,
            r > 0,
    {
        proof {
            use_type_invariant(&self);
        }
        self.max_opening_frame_bytes
    }

    pub fn max_chunk_bytes(self) -> (r: usize)
        ensures
            r == self@.max_chunk_bytes,
            r > 0,
    {
        proof {
            use_type_invariant(&self);
        }
        self.max_chunk_bytes
    }

    pub fn max_concurrent_remote_uni_streams(self) -> (r: u32)
        ensures
            r == self@.max_concurrent_remote_uni_streams,
            r > 0,
    {
        proof {
            use_type_invariant(&self);
        }
        self.max_concurrent_remote_uni_streams
    }

    pub fn max_concurrent_remote_bi_streams(self) -> (r: u32)
        ensures
            r == self@.max_concurrent_remote_bi_streams,
            r > 0,
    {
        proof {
            use_type_invariant(&self);
        }
        self.max_concurrent_remote_bi_streams
    }

    pub fn stream_receive_window(self) -> (r: u64)
        ensures
            r == self@.stream_receive_window,
            r > 0,
    {
        proof {
            use_type_invariant(&self);
        }
        self.stream_receive_window
    }

    pub fn connection_receive_window(self) -> (r: u64)
        ensures
            r == self@.connection_receive_window,
            r > 0,
    {
        proof {
            use_type_invariant(&self);
        }
        self.connection_receive_window
    }

    pub fn idle_timeout(self) -> (r: Duration)
        ensures
            r == duration_from_millis(self@.idle_timeout_ms),
    {
        milliseconds(self.idle_timeout_ms)
    }
}

impl Default for CandidateConfig {
    /// The limits the Quinn transport uses.
    fn default() -> (r: Self)
        ensures
            r@ == (CandidateConfigView {
                control_queue_capacity: DEFAULT_CONTROL_QUEUE_CAPACITY,
                incoming_stream_queue_capacity: DEFAULT_INCOMING_STREAM_QUEUE_CAPACITY,
                outgoing_stream_capacity: DEFAULT_OUTGOING_STREAM_CAPACITY,
                stream_chunk_queue_capacity: DEFAULT_STREAM_CHUNK_QUEUE_CAPACITY,
                max_control_frame_bytes: DEFAULT_MAX_CONTROL_FRAME_BYTES,
                max_opening_frame_bytes: DEFAULT_MAX_OPENING_FRAME_BYTES,
                max_chunk_bytes: DEFAULT_MAX_CHUNK_BYTES,
                max_concurrent_remote_uni_streams: DEFAULT_MAX_CONCURRENT_REMOTE_UNI_STREAMS,
                max_concurrent_remote_bi_streams: DEFAULT_MAX_CONCURRENT_REMOTE_BI_STREAMS,
                stream_receive_window: DEFAULT_STREAM_RECEIVE_WINDOW,
                connection_receive_window: DEFAULT_CONNECTION_RECEIVE_WINDOW,
                idle_timeout_ms: DEFAULT_IDLE_TIMEOUT_MS,
            }),
    {
        CandidateConfig {
            control_queue_capacity: DEFAULT_CONTROL_QUEUE_CAPACITY,
            incoming_stream_queue_capacity: DEFAULT_INCOMING_STREAM_QUEUE_CAPACITY,
            outgoing_stream_capacity: DEFAULT_OUTGOING_STREAM_CAPACITY,
            stream_chunk_queue_capacity: DEFAULT_STREAM_CHUNK_QUEUE_CAPACITY,
            max_control_frame_bytes: DEFAULT_MAX_CONTROL_FRAME_BYTES,
            max_opening_frame_bytes: DEFAULT_MAX_OPENING_FRAME_BYTES,
            max_chunk_bytes: DEFAULT_MAX_CHUNK_BYTES,
            max_concurrent_remote_uni_streams: DEFAULT_MAX_CONCURRENT_REMOTE_UNI_STREAMS,
            max_concurrent_remote_bi_streams: DEFAULT_MAX_CONCURRENT_REMOTE_BI_STREAMS,
            stream_receive_window: DEFAULT_STREAM_RECEIVE_WINDOW,
            connection_receive_window: DEFAULT_CONNECTION_RECEIVE_WINDOW,
            idle_timeout_ms: DEFAULT_IDLE_TIMEOUT_MS,
        }
    }
}

/// Whether a connection has been marked terminal; it is marked at most once, so that only the
/// first closer closes it.
#[derive(Debug)]
pub struct TerminalFlag {
    terminal: bool,
}

impl View for TerminalFlag {
    type V = bool;

    closed spec fn view(&self) -> bool {
        self.terminal
    }
}

impl TerminalFlag {
    pub fn new() -> (r: Self)
        ensures
            !r@,
    {
        TerminalFlag { terminal: false }
    }

    /// Marks the connection terminal; true only for the call that changed it.
    pub fn mark_terminal(&mut self) -> (first: bool)
        ensures
            final(self)@,
            first == !old(self)@,
    {
        let first = !self.terminal;
        self.terminal = true;
        first
    }

    pub fn is_terminal(&self) -> (r: bool)
        ensures
            r == self@,
    {
        self.terminal
    }
}

pub struct TaskRegistryView<H> {
    pub accepting: bool,
    pub handles: Seq<H>,
}

/// The tasks a transport owns. While it accepts, every spawned task is kept so that shutdown
/// can wait for it; once shutdown has taken the tasks, nothing more is spawned.
pub struct TaskRegistry<H> {
    accepting: bool,
    handles: Vec<H>,
}

impl<H> View for TaskRegistry<H> {
    type V = TaskRegistryView<H>;

    closed spec fn view(&self) -> TaskRegistryView<H> {
        TaskRegistryView { accepting: self.accepting, handles: self.handles@ }
    }
}

impl<H> TaskRegistry<H> {
    pub fn new() -> (r: Self)
        ensures
            r@.accepting,
            r@.handles.len() == 0,
    {
        TaskRegistry { accepting: true, handles: Vec::new() }
    }

    /// Spawns a task with `spawn` if the registry still accepts, and keeps its handle; returns
    /// whether it did. A registry that no longer accepts does not call `spawn`.
    pub fn spawn<Spawn>(&mut self, spawn: Spawn) -> (spawned: bool) where
        Spawn: FnOnce() -> H,

        requires
            spawn.requires(()),
        ensures
            spawned == old(self)@.accepting,
            final(self)@.accepting == old(self)@.accepting,
            spawned ==> exists|h: H|
                #![trigger spawn.ensures((), h)]
                spawn.ensures((), h) && final(self)@.handles == old(self)@.handles.push(h),
            !spawned ==> final(self)@.handles == old(self)@.handles,
    {
        if !self.accepting {
            return false;
        }
        let handle = spawn();
        let ghost kept = handle;
        self.handles.push(handle);
        assert(spawn.ensures((), kept) && self@.handles == old(self)@.handles.push(kept));
        true
    }

    /// Stops accepting tasks and hands out every task spawned so far.
    pub fn close_and_take(&mut self) -> (taken: Vec<H>)
        ensures
            !final(self)@.accepting,
            final(self)@.handles.len() == 0,
            taken@ == old(self)@.handles,
    {
        self.accepting = false;
        let mut taken = Vec::new();
        std::mem::swap(&mut taken, &mut self.handles);
        taken
    }
}

} // verus!
