use clap_validator::checks::all_or_nothing;
use clap_validator::checks::build_param_value_events;
use clap_validator::checks::is_core_namespace;
use clap_validator::checks::params_unchanged;
use clap_validator::checks::round_trip_ok;
use clap_validator::events::EventPayload;
use clap_validator::events::EventQueue;

#[test]
fn gain_round_trip_passes_when_text_and_bits_agree() {
    // A "Gain" parameter in [-60, 0] that renders -23.5 and parses it back
    // exactly: the second render equals the first, the re-parse is
    // bit-identical.
    let value: f64 = -23.5;
    let text1 = String::from("-23.50 dB");
    let reparsed: f64 = -23.5;
    let text2 = String::from("-23.50 dB");
    assert!(round_trip_ok(
        &text1,
        &text2,
        reparsed.to_bits(),
        reparsed.to_bits()
    ));
    assert_eq!(value.to_bits(), reparsed.to_bits());
}

#[test]
fn round_trip_fails_on_text_mismatch() {
    let text1 = String::from("-23.50 dB");
    let text2 = String::from("-23.49 dB");
    let bits = (-23.5f64).to_bits();
    assert!(!round_trip_ok(&text1, &text2, bits, bits));
}

#[test]
fn round_trip_fails_on_bit_level_value_drift() {
    let text = String::from("0.10");
    let first: f64 = 0.1;
    let drifted = f64::from_bits(first.to_bits() + 1);
    assert!(!round_trip_ok(
        &text,
        &text.clone(),
        first.to_bits(),
        drifted.to_bits()
    ));
}

#[test]
fn text_support_must_be_all_or_nothing() {
    assert!(all_or_nothing(&vec![]));
    assert!(all_or_nothing(&vec![true, true, true]));
    assert!(all_or_nothing(&vec![false, false]));
    assert!(!all_or_nothing(&vec![true, false, true]));
    assert!(!all_or_nothing(&vec![false, true]));
}

#[test]
fn wrong_namespace_events_leave_parameters_alone() {
    // Initial value 0.3 for the only parameter; a block carries a
    // ParamValue event setting it to 0.9 in an unknown namespace. A
    // conforming plugin ignores the event, so the read-back equals the
    // initial values and the guard passes.
    let rogue_namespace: u16 = 0xb33f;
    assert!(!is_core_namespace(rogue_namespace));
    let initial = vec![(0.3f64).to_bits()];

    let events =
        build_param_value_events(&vec![0u32], &vec![(0.9f64).to_bits()], rogue_namespace);
    assert_eq!(events.len(), 1);
    assert_eq!(events[0].time, 0);
    assert_eq!(events[0].space_id, rogue_namespace);
    match events[0].payload {
        EventPayload::ParamValue { param_id, value_bits, .. } => {
            assert_eq!(param_id, 0);
            assert_eq!(value_bits, (0.9f64).to_bits());
        }
        _ => panic!("expected a parameter event"),
    }

    let mut queue = EventQueue::new();
    queue.push(events[0]);
    queue.sort();

    // The conforming plugin drops the whole block's rogue events.
    let final_values = initial.clone();
    assert!(params_unchanged(&initial, &final_values));

    // Had the plugin applied the event, the guard would catch it.
    let leaked = vec![(0.9f64).to_bits()];
    assert!(!params_unchanged(&initial, &leaked));
}

#[test]
fn params_unchanged_requires_equal_lengths() {
    let initial = vec![1u64, 2u64];
    let truncated = vec![1u64];
    assert!(!params_unchanged(&initial, &truncated));
    assert!(params_unchanged(&initial, &initial.clone()));
}

#[test]
fn core_namespace_is_the_abi_constant() {
    assert!(is_core_namespace(clap_sys::events::CLAP_CORE_EVENT_SPACE_ID));
    assert!(!is_core_namespace(1));
}
