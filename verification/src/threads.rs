//! Logical threads, the host-side callback queue, and the thread audit.
//!
//! A call into or out of the plugin carries a logical thread role — main,
//! audio, or the transient init role — set by the driver, independent of OS
//! thread identity. Every host callback the plugin invokes is recorded with
//! the role that was active; the audit later reports every callback that was
//! invoked on a role its contract forbids. Work the plugin requests
//! (restart, process, callback) is queued and drained by the main-thread
//! driver between blocks.

use vstd::prelude::*;
use vstd::seq_lib::*;

verus! {

/// The logical thread roles the driver designates.
#[derive(Clone, Copy, PartialEq, Eq, Structural, Debug)]
pub enum LogicalThread {
    /// The main thread: lifecycle, state save and load, extension queries.
    Main,
    /// The audio thread: processing and realtime parameter reads.
    Audio,
    /// The transient role active during `init()`: treated as the main
    /// thread for every contract, reported distinctly.
    InitThread,
}

/// Whether a role counts as the main thread.
pub open spec fn counts_as_main(t: LogicalThread) -> bool {
    t == LogicalThread::Main || t == LogicalThread::InitThread
}

/// The host callbacks the validator advertises to the plugin.
#[derive(Clone, Copy, PartialEq, Eq, Structural, Debug)]
pub enum HostCallback {
    /// Deferred restart request; callable from any thread.
    RequestRestart,
    /// Deferred process request; callable from any thread.
    RequestProcess,
    /// Deferred main-thread callback request; callable from any thread.
    RequestCallback,
    /// `thread-check` query for the main thread; callable from any thread.
    ThreadCheckIsMainThread,
    /// `thread-check` query for the audio thread; callable from any thread.
    ThreadCheckIsAudioThread,
    /// A log line; callable from any thread.
    Log,
    /// Parameter rescan; main thread only.
    ParamsRescan,
    /// Clearing parameter state; main thread only.
    ParamsClear,
    /// Asking the host to flush parameters; callable from any thread.
    ParamsRequestFlush,
    /// Marking saved state dirty; main thread only.
    StateMarkDirty,
    /// Audio-port layout rescan; main thread only.
    AudioPortsRescan,
    /// Note-port layout rescan; main thread only.
    NotePortsRescan,
    /// Latency change notice; main thread only.
    LatencyChanged,
    /// Tail change notice; audio thread only.
    TailChanged,
}

/// The thread contract of each host callback: on which role the plugin may
/// invoke it.
pub open spec fn callback_allowed(cb: HostCallback, t: LogicalThread) -> bool {
    match cb {
        HostCallback::RequestRestart => true,
        HostCallback::RequestProcess => true,
        HostCallback::RequestCallback => true,
        HostCallback::ThreadCheckIsMainThread => true,
        HostCallback::ThreadCheckIsAudioThread => true,
        HostCallback::Log => true,
        HostCallback::ParamsRescan => counts_as_main(t),
        HostCallback::ParamsClear => counts_as_main(t),
        HostCallback::ParamsRequestFlush => true,
        HostCallback::StateMarkDirty => counts_as_main(t),
        HostCallback::AudioPortsRescan => counts_as_main(t),
        HostCallback::NotePortsRescan => counts_as_main(t),
        HostCallback::LatencyChanged => counts_as_main(t),
        HostCallback::TailChanged => t == LogicalThread::Audio,
    }
}

/// One recorded plugin-to-host call: the callback and the role that was
/// active when it came in.
#[derive(Clone, Copy, PartialEq, Eq, Structural, Debug)]
pub struct CallRecord {
    /// The callback the plugin invoked.
    pub callback: HostCallback,
    /// The logical thread role that was active.
    pub thread: LogicalThread,
}

/// The record violates its callback's thread contract.
pub open spec fn record_violates(rec: CallRecord) -> bool {
    !callback_allowed(rec.callback, rec.thread)
}

/// Decide a callback's thread contract at run time, exactly as the
/// specification states it.
pub fn callback_allowed_on(callback: HostCallback, thread: LogicalThread) -> (r: bool)
    ensures
        r == callback_allowed(callback, thread),
{
    let main = matches!(thread, LogicalThread::Main | LogicalThread::InitThread);
    match callback {
        HostCallback::RequestRestart => true,
        HostCallback::RequestProcess => true,
        HostCallback::RequestCallback => true,
        HostCallback::ThreadCheckIsMainThread => true,
        HostCallback::ThreadCheckIsAudioThread => true,
        HostCallback::Log => true,
        HostCallback::ParamsRescan => main,
        HostCallback::ParamsClear => main,
        HostCallback::ParamsRequestFlush => true,
        HostCallback::StateMarkDirty => main,
        HostCallback::AudioPortsRescan => main,
        HostCallback::NotePortsRescan => main,
        HostCallback::LatencyChanged => main,
        HostCallback::TailChanged => matches!(thread, LogicalThread::Audio),
    }
}

/// The deferred work a plugin may ask the host for; performed by the
/// main-thread driver between blocks.
#[derive(Clone, Copy, PartialEq, Eq, Structural, Debug)]
pub enum DeferredRequest {
    /// Deactivate and reactivate the plugin.
    Restart,
    /// Start processing.
    Process,
    /// Call `on_main_thread()` on the main thread.
    MainThreadCallback,
}

/// The host half of the callback interface: the active role, the cumulative
/// call log for the audit, and the queue of deferred requests.
pub struct Host {
    /// The role the driver has designated for calls happening now.
    pub current_thread: LogicalThread,
    /// Every plugin-to-host call since instance creation, in order.
    pub call_log: Vec<CallRecord>,
    /// Deferred work the plugin has requested, oldest first.
    pub pending: Vec<DeferredRequest>,
}

impl Host {
    /// A host for a fresh instance: main-thread role, nothing recorded,
    /// nothing pending.
    pub fn new() -> (r: Host)
        ensures
            r.current_thread == LogicalThread::Main,
            r.call_log@.len() == 0,
            r.pending@.len() == 0,
    {
        Host { current_thread: LogicalThread::Main, call_log: Vec::new(), pending: Vec::new() }
    }

    /// Designate the role for the calls that follow; the driver switches it
    /// immediately around each call into the plugin.
    pub fn set_thread(&mut self, thread: LogicalThread)
        ensures
            final(self).current_thread == thread,
            final(self).call_log == old(self).call_log,
            final(self).pending == old(self).pending,
    {
        self.current_thread = thread;
    }

    /// Answer the `thread-check` extension's main-thread query from the
    /// active designation.
    pub fn is_main_thread(&self) -> (r: bool)
        ensures
            r == counts_as_main(self.current_thread),
    {
        matches!(self.current_thread, LogicalThread::Main | LogicalThread::InitThread)
    }

    /// Answer the `thread-check` extension's audio-thread query from the
    /// active designation.
    pub fn is_audio_thread(&self) -> (r: bool)
        ensures
            r == (self.current_thread == LogicalThread::Audio),
    {
        matches!(self.current_thread, LogicalThread::Audio)
    }

    /// Record a plugin-to-host call under the active role, and queue the
    /// deferred work the request kinds stand for.
    pub fn note_callback(&mut self, callback: HostCallback)
        ensures
            final(self).current_thread == old(self).current_thread,
            final(self).call_log@ == old(self).call_log@.push(
                CallRecord { callback, thread: old(self).current_thread },
            ),
            final(self).pending@ == match callback {
                HostCallback::RequestRestart => old(self).pending@.push(
                    DeferredRequest::Restart,
                ),
                HostCallback::RequestProcess => old(self).pending@.push(DeferredRequest::Process),
                HostCallback::RequestCallback => old(self).pending@.push(
                    DeferredRequest::MainThreadCallback,
                ),
                _ => old(self).pending@,
            },
    {
        self.call_log.push(CallRecord { callback, thread: self.current_thread });
        match callback {
            HostCallback::RequestRestart => self.pending.push(DeferredRequest::Restart),
            HostCallback::RequestProcess => self.pending.push(DeferredRequest::Process),
            HostCallback::RequestCallback => self.pending.push(
                DeferredRequest::MainThreadCallback,
            ),
            _ => {},
        }
    }

    /// Hand the queued deferred work to the main-thread driver, oldest
    /// first, and leave the queue empty: one round of callback handling.
    pub fn drain_pending(&mut self) -> (r: Vec<DeferredRequest>)
        ensures
            r@ == old(self).pending@,
            final(self).pending@.len() == 0,
            final(self).call_log == old(self).call_log,
            final(self).current_thread == old(self).current_thread,
    {
        let mut drained = Vec::new();
        std::mem::swap(&mut drained, &mut self.pending);
        drained
    }

    /// The records in the call log that violate their callback's thread
    /// contract, in log order: the thread-safety audit, cumulative since
    /// instance creation. An empty result is a passing audit.
    pub fn thread_safety_violations(&self) -> (r: Vec<CallRecord>)
        ensures
            r@ == self.call_log@.filter(|rec: CallRecord| record_violates(rec)),
    {
        let mut violations: Vec<CallRecord> = Vec::new();
        let mut i: usize = 0;
        while i < self.call_log.len()
            invariant
                0 <= i <= self.call_log@.len(),
                violations@ == self.call_log@.take(i as int).filter(
                    |rec: CallRecord| record_violates(rec),
                ),
            decreases self.call_log@.len() - i,
        {
            let rec = self.call_log[i];
            let allowed = callback_allowed_on(rec.callback, rec.thread);
            proof {
                assert(self.call_log@.take(i as int + 1) =~= self.call_log@.take(i as int)
                    + seq![self.call_log@[i as int]]);
                Seq::filter_distributes_over_add(
                    self.call_log@.take(i as int),
                    seq![self.call_log@[i as int]],
                    |rec: CallRecord| record_violates(rec),
                );
                reveal_with_fuel(Seq::filter, 3);
                assert(seq![self.call_log@[i as int]].drop_last()
                    =~= Seq::<CallRecord>::empty());
            }
            if !allowed {
                violations.push(rec);
            }
            i += 1;
        }
        proof {
            assert(self.call_log@.take(self.call_log@.len() as int) =~= self.call_log@);
        }
        violations
    }

    /// Whether the audit passes: no recorded call violated its thread
    /// contract.
    pub fn thread_safety_check(&self) -> (r: bool)
        ensures
            r <==> (forall|i: int|
                0 <= i < self.call_log@.len() ==> !record_violates(#[trigger] self.call_log@[i])),
    {
        let mut passed = true;
        let mut i: usize = 0;
        while i < self.call_log.len()
            invariant
                0 <= i <= self.call_log@.len(),
                passed <==> (forall|k: int|
                    0 <= k < i ==> !record_violates(#[trigger] self.call_log@[k])),
            decreases self.call_log@.len() - i,
        {
            let rec = self.call_log[i];
            if !callback_allowed_on(rec.callback, rec.thread) {
                passed = false;
            }
            i += 1;
        }
        passed
    }
}

/// Thread-audit soundness: a run in which the plugin never called back into
/// the host leaves the call log empty, and an empty call log passes the
/// audit — no violation can be reported that was never recorded.
pub proof fn lemma_empty_log_passes_audit(log: Seq<CallRecord>)
    requires
        log.len() == 0,
    ensures
        log.filter(|rec: CallRecord| record_violates(rec)).len() == 0,
        forall|i: int| 0 <= i < log.len() ==> !record_violates(#[trigger] log[i]),
{
    log.lemma_filter_len(|rec: CallRecord| record_violates(rec));
}

} // verus!
