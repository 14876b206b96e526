//! Test statuses, the exit-code rule, and how a child worker's fate is read.
//!
//! The runner executes each (plugin, test) pair either in process or in a
//! child worker. A child writes exactly one structured result line and exits
//! cleanly; a child that dies without reporting — a crash inside the plugin —
//! is recorded as crashed, and the run simply moves on to the next test.

use vstd::prelude::*;

verus! {

/// The outcome of one test on one plugin.
#[derive(Clone, Copy, PartialEq, Eq, Structural, Debug)]
pub enum TestStatus {
    /// The test ran and every assertion held.
    Success,
    /// The test ran and an assertion failed.
    Failed,
    /// The plugin does not offer what the test exercises.
    Skipped,
    /// The child worker died without delivering a result.
    Crashed,
    /// The test exceeded its deadline.
    TimedOut,
}

/// One test's structured result: which plugin, which test, how it went.
pub struct TestResult {
    /// The id of the plugin under test.
    pub plugin_id: String,
    /// The name of the test.
    pub test_name: String,
    /// How the test ended.
    pub status: TestStatus,
    /// A human-readable explanation, where one helps.
    pub details: Option<String>,
}

/// A status that does not fail the run.
pub open spec fn status_acceptable(s: TestStatus) -> bool {
    s == TestStatus::Success || s == TestStatus::Skipped
}

/// The wire name of a status in the structured result schema.
pub fn status_name(status: TestStatus) -> (r: &'static str)
    ensures
        status == TestStatus::Success ==> r@ == "success"@,
        status == TestStatus::Failed ==> r@ == "failed"@,
        status == TestStatus::Skipped ==> r@ == "skipped"@,
        status == TestStatus::Crashed ==> r@ == "crashed"@,
        status == TestStatus::TimedOut ==> r@ == "timed_out"@,
{
    match status {
        TestStatus::Success => "success",
        TestStatus::Failed => "failed",
        TestStatus::Skipped => "skipped",
        TestStatus::Crashed => "crashed",
        TestStatus::TimedOut => "timed_out",
    }
}

/// The process exit code for a finished run: zero exactly when every test
/// passed or was skipped, one otherwise. (Internal validator errors exit
/// with their own code before a run completes.)
pub fn exit_code(statuses: &Vec<TestStatus>) -> (r: u8)
    ensures
        r == 0 || r == 1,
        r == 0 <==> (forall|i: int|
            0 <= i < statuses@.len() ==> status_acceptable(#[trigger] statuses@[i])),
{
    let mut all_acceptable = true;
    let mut i: usize = 0;
    while i < statuses.len()
        invariant
            0 <= i <= statuses@.len(),
            all_acceptable <==> (forall|k: int|
                0 <= k < i ==> status_acceptable(#[trigger] statuses@[k])),
        decreases statuses@.len() - i,
    {
        match statuses[i] {
            TestStatus::Success => {},
            TestStatus::Skipped => {},
            _ => {
                all_acceptable = false;
            },
        }
        i += 1;
    }
    if all_acceptable {
        0
    } else {
        1
    }
}

/// Read a child worker's fate. A clean exit with a valid result line is that
/// result; anything else — an abnormal death, or an exit without a valid
/// line — is a crash. The caller handles deadlines itself and records a
/// timeout before consulting this rule.
pub fn interpret_child_outcome(exited_cleanly: bool, reported: Option<TestStatus>) -> (r:
    TestStatus)
    ensures
        exited_cleanly ==> (reported matches Some(s) ==> r == s),
        !(exited_cleanly && reported is Some) ==> r == TestStatus::Crashed,
{
    if exited_cleanly {
        match reported {
            Option::Some(status) => status,
            Option::None => TestStatus::Crashed,
        }
    } else {
        TestStatus::Crashed
    }
}

/// Crash containment: a child that dies without a valid result line is read
/// as crashed, and a crashed or timed-out status never counts as a pass —
/// so a dying plugin can fail a run but never hide in one, while the run
/// itself carries on to the next test.
pub proof fn lemma_crash_never_passes(exited_cleanly: bool, reported: Option<TestStatus>)
    requires
        !exited_cleanly || reported is None,
    ensures
        !status_acceptable(TestStatus::Crashed),
        !status_acceptable(TestStatus::TimedOut),
{
}

} // verus!
