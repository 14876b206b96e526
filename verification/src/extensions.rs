//! The rule behind the typed extension façades.
//!
//! A plugin advertises an optional capability by answering an extension
//! query with a vtable. A façade accepts the extension only when the answer
//! is there at all and every required function slot in it is filled;
//! otherwise the extension is reported as unsupported and never called.
//! The façades' marshalling of raw pointers and C strings lives outside the
//! core; what is decided here is only the support rule itself, over the
//! slot-presence the front end observed.

use vstd::prelude::*;

verus! {

/// Every required slot of the vtable is filled.
pub open spec fn all_slots_filled(slots: Seq<bool>) -> bool {
    forall|i: int| 0 <= i < slots.len() ==> #[trigger] slots[i]
}

/// Whether an extension is usable: the plugin answered the query for it,
/// and none of the required function slots is missing. A vtable with a
/// missing slot makes the whole extension unsupported — a façade never
/// calls a partially filled table.
pub fn extension_supported(answered: bool, required_slots_filled: &Vec<bool>) -> (r: bool)
    ensures
        r <==> (answered && all_slots_filled(required_slots_filled@)),
{
    if !answered {
        return false;
    }
    let mut i: usize = 0;
    while i < required_slots_filled.len()
        invariant
            0 <= i <= required_slots_filled@.len(),
            forall|k: int| 0 <= k < i ==> #[trigger] required_slots_filled@[k],
        decreases required_slots_filled@.len() - i,
    {
        if !required_slots_filled[i] {
            proof {
                assert(!required_slots_filled@[i as int]);
            }
            return false;
        }
        i += 1;
    }
    true
}

/// No two cache entries answer for the same extension id.
pub open spec fn keys_unique(entries: Seq<(String, Option<u64>)>) -> bool {
    forall|i: int, j: int|
        0 <= i < j < entries.len() ==> (#[trigger] entries[i]).0@ != (#[trigger] entries[j]).0@
}

/// Some entry answers for `id`.
pub open spec fn has_key(entries: Seq<(String, Option<u64>)>, id: Seq<char>) -> bool {
    exists|i: int| 0 <= i < entries.len() && (#[trigger] entries[i]).0@ == id
}

/// Some entry answers for `id` with exactly `answer`.
pub open spec fn entry_found(
    entries: Seq<(String, Option<u64>)>,
    id: Seq<char>,
    answer: Option<u64>,
) -> bool {
    exists|i: int|
        0 <= i < entries.len() && (#[trigger] entries[i]).0@ == id && entries[i].1 == answer
}

/// The memo behind extension lookup: the answer the plugin first gave for
/// each queried id — a vtable handle, or none — so that asking again
/// returns the same answer without calling the plugin again. Handles are
/// the front end's stable names for the vtable pointers it holds.
pub struct ExtensionCache {
    /// The answers recorded so far, one per queried id.
    pub entries: Vec<(String, Option<u64>)>,
}

impl ExtensionCache {
    /// An empty cache: nothing queried yet.
    pub fn new() -> (r: ExtensionCache)
        ensures
            r.entries@.len() == 0,
            keys_unique(r.entries@),
    {
        ExtensionCache { entries: Vec::new() }
    }

    /// The recorded answer for `id`, if it was ever queried.
    pub fn lookup(&self, id: &String) -> (r: Option<Option<u64>>)
        ensures
            r is Some <==> has_key(self.entries@, id@),
            r matches Some(answer) ==> entry_found(self.entries@, id@, answer),
    {
        let mut i: usize = 0;
        while i < self.entries.len()
            invariant
                0 <= i <= self.entries@.len(),
                forall|k: int| 0 <= k < i ==> (#[trigger] self.entries@[k]).0@ != id@,
            decreases self.entries@.len() - i,
        {
            if self.entries[i].0 == *id {
                return Option::Some(self.entries[i].1);
            }
            i += 1;
        }
        Option::None
    }

    /// The answer for `id`: the recorded one if the id was queried before,
    /// else `fresh` — the answer the plugin just gave — which is recorded.
    /// Either way the cache afterwards answers `id` with the returned
    /// value, so a given id resolves the same way for the whole lifetime.
    pub fn get_or_insert(&mut self, id: String, fresh: Option<u64>) -> (r: Option<u64>)
        requires
            keys_unique(old(self).entries@),
        ensures
            keys_unique(final(self).entries@),
            entry_found(final(self).entries@, id@, r),
            has_key(old(self).entries@, id@) ==> *final(self) == *old(self) && entry_found(
                old(self).entries@,
                id@,
                r,
            ),
            !has_key(old(self).entries@, id@) ==> r == fresh && final(self).entries@ == old(
                self,
            ).entries@.push((id, fresh)),
    {
        match self.lookup(&id) {
            Option::Some(answer) => answer,
            Option::None => {
                self.entries.push((id, fresh));
                proof {
                    assert(self.entries@.last().0@ == id@);
                }
                fresh
            },
        }
    }
}

/// Extension lookup is idempotent: a cache whose entries answer each id at
/// most once can hold only one answer for an id, so every later query for
/// that id sees the answer the first query recorded.
pub proof fn lemma_lookup_is_idempotent(
    entries: Seq<(String, Option<u64>)>,
    id: Seq<char>,
    first: Option<u64>,
    second: Option<u64>,
)
    requires
        keys_unique(entries),
        entry_found(entries, id, first),
        entry_found(entries, id, second),
    ensures
        first == second,
{
    let i = choose|i: int|
        0 <= i < entries.len() && (#[trigger] entries[i]).0@ == id && entries[i].1 == first;
    let j = choose|j: int|
        0 <= j < entries.len() && (#[trigger] entries[j]).0@ == id && entries[j].1 == second;
    if i != j {
        assert(entries[i].0@ != entries[j].0@);
    }
}

} // verus!
