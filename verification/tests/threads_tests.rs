use clap_validator::threads::DeferredRequest;
use clap_validator::threads::Host;
use clap_validator::threads::HostCallback;
use clap_validator::threads::LogicalThread;

#[test]
fn silent_plugin_passes_the_thread_audit() {
    let host = Host::new();
    assert!(host.thread_safety_check());
    assert!(host.thread_safety_violations().is_empty());
}

#[test]
fn legal_callbacks_pass_the_audit() {
    let mut host = Host::new();
    host.set_thread(LogicalThread::Main);
    host.note_callback(HostCallback::ParamsRescan);
    host.note_callback(HostCallback::Log);
    host.set_thread(LogicalThread::Audio);
    host.note_callback(HostCallback::RequestRestart);
    host.note_callback(HostCallback::TailChanged);
    host.set_thread(LogicalThread::InitThread);
    host.note_callback(HostCallback::StateMarkDirty);
    assert!(host.thread_safety_check());
    assert!(host.thread_safety_violations().is_empty());
}

#[test]
fn main_thread_callback_from_audio_thread_is_a_violation() {
    let mut host = Host::new();
    host.set_thread(LogicalThread::Audio);
    host.note_callback(HostCallback::ParamsRescan);
    assert!(!host.thread_safety_check());
    let violations = host.thread_safety_violations();
    assert_eq!(violations.len(), 1);
    assert_eq!(violations[0].callback, HostCallback::ParamsRescan);
    assert_eq!(violations[0].thread, LogicalThread::Audio);
}

#[test]
fn audio_thread_callback_from_main_thread_is_a_violation() {
    let mut host = Host::new();
    host.set_thread(LogicalThread::Main);
    host.note_callback(HostCallback::TailChanged);
    assert!(!host.thread_safety_check());
    assert_eq!(host.thread_safety_violations().len(), 1);
}

#[test]
fn audit_is_cumulative_and_ordered() {
    let mut host = Host::new();
    host.set_thread(LogicalThread::Audio);
    host.note_callback(HostCallback::StateMarkDirty);
    host.note_callback(HostCallback::Log);
    host.set_thread(LogicalThread::Audio);
    host.note_callback(HostCallback::NotePortsRescan);
    let violations = host.thread_safety_violations();
    assert_eq!(violations.len(), 2);
    assert_eq!(violations[0].callback, HostCallback::StateMarkDirty);
    assert_eq!(violations[1].callback, HostCallback::NotePortsRescan);
}

#[test]
fn thread_check_answers_from_the_designation() {
    let mut host = Host::new();
    host.set_thread(LogicalThread::Main);
    assert!(host.is_main_thread());
    assert!(!host.is_audio_thread());
    host.set_thread(LogicalThread::Audio);
    assert!(!host.is_main_thread());
    assert!(host.is_audio_thread());
    // The transient init designation counts as the main thread.
    host.set_thread(LogicalThread::InitThread);
    assert!(host.is_main_thread());
    assert!(!host.is_audio_thread());
}

#[test]
fn deferred_requests_drain_in_order_and_once() {
    let mut host = Host::new();
    host.set_thread(LogicalThread::Audio);
    host.note_callback(HostCallback::RequestRestart);
    host.note_callback(HostCallback::RequestCallback);
    host.note_callback(HostCallback::Log);
    host.note_callback(HostCallback::RequestProcess);
    let drained = host.drain_pending();
    assert_eq!(
        drained,
        vec![
            DeferredRequest::Restart,
            DeferredRequest::MainThreadCallback,
            DeferredRequest::Process
        ]
    );
    assert!(host.drain_pending().is_empty());
}
