use clap_validator::prng::Prng;
use clap_validator::runner::TestStatus;
use clap_validator::runner::exit_code;
use clap_validator::runner::interpret_child_outcome;
use clap_validator::runner::status_name;

#[test]
fn crashed_child_is_contained_and_the_run_goes_on() {
    // Isolated mode: the child segfaults inside process(), so it exits
    // abnormally without writing a result line. The parent records a crash
    // for that test and keeps running the rest of the matrix.
    let child_status = interpret_child_outcome(false, None);
    assert_eq!(child_status, TestStatus::Crashed);
    assert_eq!(status_name(child_status), "crashed");

    let run = vec![TestStatus::Success, child_status, TestStatus::Success];
    assert_eq!(run.len(), 3);
    assert_eq!(exit_code(&run), 1);
}

#[test]
fn clean_child_with_result_line_reports_that_result() {
    assert_eq!(
        interpret_child_outcome(true, Some(TestStatus::Skipped)),
        TestStatus::Skipped
    );
    assert_eq!(
        interpret_child_outcome(true, Some(TestStatus::Failed)),
        TestStatus::Failed
    );
}

#[test]
fn clean_exit_without_result_line_is_a_crash() {
    assert_eq!(interpret_child_outcome(true, None), TestStatus::Crashed);
}

#[test]
fn exit_code_zero_only_for_passes_and_skips() {
    assert_eq!(exit_code(&vec![]), 0);
    assert_eq!(exit_code(&vec![TestStatus::Success, TestStatus::Skipped]), 0);
    assert_eq!(exit_code(&vec![TestStatus::Success, TestStatus::Failed]), 1);
    assert_eq!(exit_code(&vec![TestStatus::TimedOut]), 1);
    assert_eq!(exit_code(&vec![TestStatus::Crashed]), 1);
}

#[test]
fn status_names_follow_the_schema() {
    assert_eq!(status_name(TestStatus::Success), "success");
    assert_eq!(status_name(TestStatus::Failed), "failed");
    assert_eq!(status_name(TestStatus::Skipped), "skipped");
    assert_eq!(status_name(TestStatus::Crashed), "crashed");
    assert_eq!(status_name(TestStatus::TimedOut), "timed_out");
}

#[test]
fn prng_streams_reproduce_from_equal_seeds() {
    let mut first = Prng::from_seed(0x1234_5678);
    let mut second = Prng::from_seed(0x1234_5678);
    for _ in 0..64 {
        assert_eq!(first.next_u64(), second.next_u64());
    }
    let mut third = Prng::from_seed(0x1234_5679);
    let mut fourth = Prng::from_seed(0x1234_5678);
    assert_ne!(third.next_u64(), fourth.next_u64());
}

#[test]
fn prng_zero_seed_falls_back_and_still_runs() {
    let mut generator = Prng::from_seed(0);
    let drawn = generator.next_u64();
    assert_ne!(drawn, 0);
}

#[test]
fn prng_seeds_derive_from_test_names() {
    let name = b"convert-params".to_vec();
    let mut first = Prng::from_name_bytes(&name);
    let mut second = Prng::from_name_bytes(&name);
    assert_eq!(first.next_u64(), second.next_u64());
    let mut other = Prng::from_name_bytes(&b"fuzz-params".to_vec());
    assert_ne!(Prng::from_name_bytes(&name).next_u64(), other.next_u64());
}

#[test]
fn prng_next_below_stays_below_its_bound() {
    let mut generator = Prng::from_seed(7);
    for _ in 0..128 {
        let drawn = generator.next_below(50);
        assert!(drawn < 50);
    }
}
