//! The stream-source association: a concurrent map from the
//! transport's numeric stream-source identifier (SSRC) to the
//! participant identity it currently speaks for. Entries are upserted
//! on every speaking-state change and never removed.

use vstd::prelude::*;

verus! {

#[verifier::external_type_specification]
#[verifier::external_body]
#[verifier::reject_recursive_types(K)]
#[verifier::reject_recursive_types(V)]
#[verifier::reject_recursive_types(S)]
pub struct ExDashMap<K, V, S>(dashmap::DashMap<K, V, S>);

/// The entries the map holds, as a mathematical map from stream-source
/// identifier to participant identity.
pub uninterp spec fn speaker_entries(m: dashmap::DashMap<u32, u64>) -> Map<u32, u64>;

/// The association no session has touched yet: no entries at all.
pub open spec fn no_speakers() -> Map<u32, u64> {
    Map::empty()
}

/// Relies on dashmap::DashMap::new: creates an empty map.
#[verifier::external_body]
pub(crate) fn speakers_new() -> (r: dashmap::DashMap<u32, u64>)
    ensures
        speaker_entries(r) == no_speakers(),
{
    dashmap::DashMap::new()
}

/// Relies on dashmap::DashMap::insert: stores the value under the key,
/// replacing any value the key held before.
#[verifier::external_body]
pub(crate) fn speakers_insert(m: &mut dashmap::DashMap<u32, u64>, ssrc: u32, user_id: u64)
    ensures
        speaker_entries(*final(m)) == speaker_entries(*old(m)).insert(ssrc, user_id),
{
    m.insert(ssrc, user_id);
}

/// Relies on dashmap::DashMap::get: returns a reference to the value
/// stored under the key, or nothing when the key is absent.
#[verifier::external_body]
pub(crate) fn speakers_get(m: &dashmap::DashMap<u32, u64>, ssrc: u32) -> (r: Option<u64>)
    ensures
        r == if speaker_entries(*m).dom().contains(ssrc) {
            Some(speaker_entries(*m)[ssrc])
        } else {
            None::<u64>
        },
{
    m.get(&ssrc).map(|v| *v)
}

} // verus!
