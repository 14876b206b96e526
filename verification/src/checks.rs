//! The decision rules the parameter conformance tests encode.
//!
//! The plugin's own answers — the texts its `value_to_text` produces and the
//! values its `text_to_value` parses — come back from the ABI through the
//! front end; parameter values travel as the 64-bit patterns of the ABI's
//! double fields, compared bit for bit. These functions state exactly when a
//! set of answers passes each test.

use crate::events::Event;
use crate::events::EventPayload;
use crate::transport::core_event_space_id;
use vstd::prelude::*;

verus! {

/// Whether a round trip passes for one sampled value: the text rendered
/// from the re-parsed value must equal the first text, and parsing that
/// second text must give back the same value bit for bit.
///
/// `text1` is `value_to_text(v)`, `text2` is `value_to_text(v1)` for
/// `v1 = text_to_value(text1)`, and `v2_bits` is `text_to_value(text2)`.
pub fn round_trip_ok(text1: &String, text2: &String, v1_bits: u64, v2_bits: u64) -> (r: bool)
    ensures
        r <==> (text1@ == text2@ && v1_bits == v2_bits),
{
    let texts_match = *text1 == *text2;
    texts_match && v1_bits == v2_bits
}

/// Whether per-parameter support for a text conversion is all-or-nothing:
/// either no parameter supports it or every parameter does. Partial support
/// fails the test; a plugin with no parameters passes.
pub fn all_or_nothing(supported: &Vec<bool>) -> (r: bool)
    ensures
        r <==> ((forall|i: int| 0 <= i < supported@.len() ==> !(#[trigger] supported@[i]))
            || (forall|i: int| 0 <= i < supported@.len() ==> #[trigger] supported@[i])),
{
    let mut any_supported = false;
    let mut all_supported = true;
    let mut i: usize = 0;
    while i < supported.len()
        invariant
            0 <= i <= supported@.len(),
            any_supported <==> !(forall|k: int| 0 <= k < i ==> !(#[trigger] supported@[k])),
            all_supported <==> (forall|k: int| 0 <= k < i ==> #[trigger] supported@[k]),
        decreases supported@.len() - i,
    {
        if supported[i] {
            any_supported = true;
        } else {
            all_supported = false;
        }
        i += 1;
    }
    !any_supported || all_supported
}

/// Whether the parameter values read back after a block equal the values
/// read before it, bit for bit: the pass condition of the namespace
/// isolation test, whose block carries events in a namespace the plugin
/// does not know.
pub fn params_unchanged(initial_bits: &Vec<u64>, final_bits: &Vec<u64>) -> (r: bool)
    ensures
        r <==> initial_bits@ == final_bits@,
{
    if initial_bits.len() != final_bits.len() {
        proof {
            assert(initial_bits@.len() != final_bits@.len());
        }
        return false;
    }
    let mut i: usize = 0;
    while i < initial_bits.len()
        invariant
            0 <= i <= initial_bits@.len(),
            initial_bits@.len() == final_bits@.len(),
            forall|k: int| 0 <= k < i ==> initial_bits@[k] == final_bits@[k],
        decreases initial_bits@.len() - i,
    {
        if initial_bits[i] != final_bits[i] {
            proof {
                assert(initial_bits@[i as int] != final_bits@[i as int]);
            }
            return false;
        }
        i += 1;
    }
    proof {
        assert(initial_bits@ =~= final_bits@);
    }
    true
}

/// Whether an event namespace is the core CLAP event space — the one
/// namespace whose parameter events a conforming plugin must apply.
pub fn is_core_namespace(space_id: u16) -> (r: bool)
    ensures
        r <==> space_id == 0,
{
    space_id == core_event_space_id()
}

/// Build one `ParamValue` event per parameter, all at the start of the
/// block, in the given event namespace. With a namespace no plugin knows,
/// this is the payload of the namespace isolation test.
pub fn build_param_value_events(
    param_ids: &Vec<u32>,
    value_bits: &Vec<u64>,
    space_id: u16,
) -> (r: Vec<Event>)
    requires
        param_ids@.len() == value_bits@.len(),
    ensures
        r@.len() == param_ids@.len(),
        forall|i: int|
            0 <= i < r@.len() ==> (#[trigger] r@[i]) == (Event {
                time: 0,
                space_id,
                flags: 0,
                payload: EventPayload::ParamValue {
                    param_id: param_ids@[i],
                    port_index: -1i16,
                    channel: -1i16,
                    key: -1i16,
                    note_id: -1i32,
                    value_bits: value_bits@[i],
                },
            }),
{
    let mut events: Vec<Event> = Vec::new();
    let mut i: usize = 0;
    while i < param_ids.len()
        invariant
            0 <= i <= param_ids@.len(),
            param_ids@.len() == value_bits@.len(),
            events@.len() == i,
            forall|k: int|
                0 <= k < i ==> (#[trigger] events@[k]) == (Event {
                    time: 0,
                    space_id,
                    flags: 0,
                    payload: EventPayload::ParamValue {
                        param_id: param_ids@[k],
                        port_index: -1i16,
                        channel: -1i16,
                        key: -1i16,
                        note_id: -1i32,
                        value_bits: value_bits@[k],
                    },
                }),
        decreases param_ids@.len() - i,
    {
        events.push(
            Event {
                time: 0,
                space_id,
                flags: 0,
                payload: EventPayload::ParamValue {
                    param_id: param_ids[i],
                    port_index: -1i16,
                    channel: -1i16,
                    key: -1i16,
                    note_id: -1i32,
                    value_bits: value_bits[i],
                },
            },
        );
        i += 1;
    }
    events
}

} // verus!
