use clap_validator::extensions::extension_supported;
use clap_validator::extensions::ExtensionCache;

#[test]
fn unanswered_extension_query_means_unsupported() {
    assert!(!extension_supported(false, &vec![true, true]));
    assert!(!extension_supported(false, &vec![]));
}

#[test]
fn missing_vtable_slot_makes_the_extension_unsupported() {
    assert!(!extension_supported(true, &vec![true, false, true]));
    assert!(!extension_supported(true, &vec![false]));
}

#[test]
fn complete_vtable_is_supported() {
    assert!(extension_supported(true, &vec![true, true, true, true]));
    // An extension without required slots is supported once answered.
    assert!(extension_supported(true, &vec![]));
}

#[test]
fn extension_lookups_are_memoized_and_idempotent() {
    let mut cache = ExtensionCache::new();
    assert_eq!(cache.lookup(&String::from("clap.params")), None);
    // First query records the plugin's answer.
    assert_eq!(cache.get_or_insert(String::from("clap.params"), Some(7)), Some(7));
    assert_eq!(cache.get_or_insert(String::from("clap.state"), None), None);
    // Later queries return the first answer, whatever the plugin would say
    // now.
    assert_eq!(cache.get_or_insert(String::from("clap.params"), Some(99)), Some(7));
    assert_eq!(cache.get_or_insert(String::from("clap.state"), Some(3)), None);
    assert_eq!(cache.lookup(&String::from("clap.params")), Some(Some(7)));
    assert_eq!(cache.lookup(&String::from("clap.state")), Some(None));
    assert_eq!(cache.lookup(&String::from("clap.latency")), None);
}
