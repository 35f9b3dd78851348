//! The background keyword listener: a cooperative-stop state machine run by
//! a dedicated thread, and the consume-on-read slot its detections land in.
//!
//! The machine here is the listener's entire control logic. The thread, the
//! lock around the shared state and the audio device live outside this
//! crate; their driver calls one transition per step, so every state change,
//! the single-thread invariant and the slot semantics are verified.

use vstd::prelude::*;

use crate::text::describe_keyword;
use crate::text::keyword_description;

verus! {

/// A keyword detection as surfaced to the application: the description of
/// the matched keyword and when it was observed (the clock lives with the
/// caller, so the timestamp arrives here as a plain value).
#[derive(PartialEq, Eq, Debug)]
pub struct KeywordDetection {
    pub keyword: String,
    pub timestamp: String,
}

impl KeywordDetection {
    pub fn new(keyword: String, timestamp: String) -> (r: KeywordDetection)
        ensures
            r.keyword == keyword,
            r.timestamp == timestamp,
    {
        KeywordDetection { keyword, timestamp }
    }
}

/// A single-slot holder for the most recent keyword detection, with
/// take-and-clear read semantics. A new detection overwrites an unread one:
/// most-recent-wins, not a queue, so at most one unread detection is ever
/// retained.
#[derive(PartialEq, Eq, Debug)]
pub struct ResultStore {
    slot: Option<String>,
}

impl ResultStore {
    /// The unread detection currently held, if any.
    pub closed spec fn spec_slot(&self) -> Option<String> {
        self.slot
    }

    pub fn new() -> (r: ResultStore)
        ensures
            r.spec_slot() is None,
    {
        ResultStore { slot: None }
    }

    /// Record a detection, overwriting any unread one.
    pub fn store(&mut self, description: String)
        ensures
            final(self).spec_slot() == Some(description),
    {
        self.slot = Some(description);
    }

    /// Read and clear: returns the unread detection and leaves the slot
    /// empty, so a second take returns nothing.
    pub fn take(&mut self) -> (r: Option<String>)
        ensures
            r == old(self).spec_slot(),
            final(self).spec_slot() is None,
    {
        self.slot.take()
    }
}

/// Lifecycle of the background listener thread.
#[derive(Clone, Copy, PartialEq, Eq, Structural, Debug)]
pub enum ListenerState {
    /// No thread runs; the device is released.
    Stopped,
    /// A thread was spawned and is initializing its engine and device.
    Starting,
    /// The thread is reading frames and re-checks the flag before each read.
    Listening,
}

/// The background keyword listener's shared state: its lifecycle, the
/// cooperative listening flag, how many threads run its loop, the detection
/// slot, and whether the last thread ended in a failure (a failed thread
/// must leave an observable state behind instead of crashing the process).
#[derive(PartialEq, Eq, Debug)]
pub struct KeywordListener {
    pub state: ListenerState,
    pub listening: bool,
    pub active_threads: u32,
    pub store: ResultStore,
    pub failed: bool,
}

impl KeywordListener {
    /// The single-thread invariant: the listener never runs more than one
    /// thread, a thread runs exactly while the state is not `Stopped`, and
    /// the flag is only raised while a thread is there to observe it.
    pub open spec fn wf(&self) -> bool {
        &&& self.active_threads <= 1
        &&& (self.state is Stopped <==> self.active_threads == 0)
        &&& (self.listening ==> !(self.state is Stopped))
    }

    pub fn new() -> (r: KeywordListener)
        ensures
            r.wf(),
            r.state is Stopped,
            !r.listening,
            !r.failed,
            r.store.spec_slot() is None,
    {
        KeywordListener {
            state: ListenerState::Stopped,
            listening: false,
            active_threads: 0,
            store: ResultStore::new(),
            failed: false,
        }
    }

    /// What a start request does: from `Stopped` it raises the flag and
    /// accounts for the one thread the caller must spawn; in any other state
    /// it only re-raises the flag, reviving a thread that has not yet
    /// observed a pending stop — never a second thread.
    pub open spec fn start_transition(s: KeywordListener) -> (KeywordListener, bool) {
        if s.state is Stopped {
            (
                KeywordListener {
                    state: ListenerState::Starting,
                    listening: true,
                    active_threads: 1,
                    failed: false,
                    ..s
                },
                true,
            )
        } else {
            (KeywordListener { listening: true, ..s }, false)
        }
    }

    /// Request the listener to start. Returns whether the caller must spawn
    /// the one background thread; a request while a thread is already
    /// running (or winding down after a stop) spawns nothing.
    pub fn start(&mut self) -> (spawn: bool)
        requires
            old(self).wf(),
        ensures
            final(self).wf(),
            (*final(self), spawn) == Self::start_transition(*old(self)),
            final(self).listening,
            final(self).active_threads == 1,
    {
        if matches!(self.state, ListenerState::Stopped) {
            self.state = ListenerState::Starting;
            self.listening = true;
            self.active_threads = 1;
            self.failed = false;
            true
        } else {
            self.listening = true;
            false
        }
    }

    /// What a stop request does: it only clears the flag and returns at
    /// once; the thread observes the flag before its next read and exits on
    /// its own, so stopping never blocks and never joins.
    pub open spec fn stop_transition(s: KeywordListener) -> KeywordListener {
        KeywordListener { listening: false, ..s }
    }

    /// Request the listener to stop.
    pub fn stop(&mut self)
        requires
            old(self).wf(),
        ensures
            final(self).wf(),
            *final(self) == Self::stop_transition(*old(self)),
            !final(self).listening,
            final(self).active_threads == old(self).active_threads,
    {
        self.listening = false;
    }

    /// The background thread finished initializing its engine and device.
    pub fn on_ready(&mut self)
        requires
            old(self).wf(),
            old(self).state is Starting,
        ensures
            final(self).wf(),
            *final(self) == (KeywordListener { state: ListenerState::Listening, ..*old(self) }),
    {
        self.state = ListenerState::Listening;
    }

    /// The background thread failed to initialize its engine or device. The
    /// failure is recorded as observable state — it must never take the
    /// process down — and the listener is stopped again.
    pub fn on_init_failure(&mut self)
        requires
            old(self).wf(),
            old(self).state is Starting,
        ensures
            final(self).wf(),
            final(self).state is Stopped,
            final(self).active_threads == 0,
            !final(self).listening,
            final(self).failed,
            final(self).store == old(self).store,
    {
        self.state = ListenerState::Stopped;
        self.listening = false;
        self.active_threads = 0;
        self.failed = true;
    }

    /// Whether the loop may block on one more frame read; re-checked before
    /// every read, so stop latency is bounded by one frame's duration.
    pub fn should_continue(&self) -> (r: bool)
        ensures
            r == self.listening,
    {
        self.listening
    }

    /// The spotter processed one frame. A non-negative index is a match
    /// against that keyword model: its description overwrites the slot,
    /// most-recent-wins. A negative index means no match and changes
    /// nothing.
    pub fn on_frame(&mut self, index: i32)
        requires
            old(self).wf(),
            old(self).state is Listening,
        ensures
            final(self).wf(),
            index >= 0 ==> (final(self).store.spec_slot() matches Some(d) && d@
                == keyword_description(index as nat)),
            index < 0 ==> *final(self) == *old(self),
            final(self).state == old(self).state,
            final(self).listening == old(self).listening,
            final(self).active_threads == old(self).active_threads,
            final(self).failed == old(self).failed,
    {
        if index >= 0 {
            let description = describe_keyword(index);
            self.store.store(description);
        }
    }

    /// The background thread observed the cleared flag, released the device
    /// and exited its loop.
    pub fn on_thread_exit(&mut self)
        requires
            old(self).wf(),
            old(self).state is Listening,
            !old(self).listening,
        ensures
            final(self).wf(),
            final(self).state is Stopped,
            final(self).active_threads == 0,
            !final(self).listening,
            final(self).store == old(self).store,
            final(self).failed == old(self).failed,
    {
        self.state = ListenerState::Stopped;
        self.active_threads = 0;
    }

    /// The background thread's frame read failed. The thread releases the
    /// device and exits, leaving the failure observable instead of crashing
    /// the process; an unread detection stays in the slot.
    pub fn on_read_failure(&mut self)
        requires
            old(self).wf(),
            old(self).state is Listening,
        ensures
            final(self).wf(),
            final(self).state is Stopped,
            final(self).active_threads == 0,
            !final(self).listening,
            final(self).failed,
            final(self).store == old(self).store,
    {
        self.state = ListenerState::Stopped;
        self.listening = false;
        self.active_threads = 0;
        self.failed = true;
    }

    /// The spotter failed to process a frame. Inference errors are fatal
    /// outside a consent session's per-frame handling, so the thread
    /// releases the device and exits, leaving the failure observable; an
    /// unread detection stays in the slot.
    pub fn on_process_failure(&mut self)
        requires
            old(self).wf(),
            old(self).state is Listening,
        ensures
            final(self).wf(),
            final(self).state is Stopped,
            final(self).active_threads == 0,
            !final(self).listening,
            final(self).failed,
            final(self).store == old(self).store,
    {
        self.state = ListenerState::Stopped;
        self.listening = false;
        self.active_threads = 0;
        self.failed = true;
    }

    /// Read and clear the most recent unread detection.
    pub fn poll(&mut self) -> (r: Option<String>)
        requires
            old(self).wf(),
        ensures
            final(self).wf(),
            r == old(self).store.spec_slot(),
            final(self).store.spec_slot() is None,
            final(self).state == old(self).state,
            final(self).listening == old(self).listening,
            final(self).active_threads == old(self).active_threads,
            final(self).failed == old(self).failed,
    {
        self.store.take()
    }
}

/// A stop request immediately followed by a start request, issued while the
/// listener is running, never spawns a second thread and never blocks: the
/// stop only clears the flag, the start re-raises it before the one running
/// thread observes it, and exactly one thread remains active.
pub proof fn lemma_stop_then_start_keeps_one_thread(s: KeywordListener)
    requires
        s.wf(),
        s.state is Listening,
    ensures
        ({
            let stopped = KeywordListener::stop_transition(s);
            let (restarted, spawn) = KeywordListener::start_transition(stopped);
            &&& restarted.wf()
            &&& !spawn
            &&& restarted.active_threads == 1
            &&& restarted.listening
            &&& restarted.state is Listening
        }),
{
}

} // verus!
