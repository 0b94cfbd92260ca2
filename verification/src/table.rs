use vstd::prelude::*;

verus! {

#[verifier::external_type_specification]
#[verifier::external_body]
#[verifier::reject_recursive_types(K)]
#[verifier::reject_recursive_types(V)]
#[verifier::reject_recursive_types(S)]
pub struct ExDashMap<K, V, S>(dashmap::DashMap<K, V, S>);

/// Relies on dashmap's `DashMap::new`: an empty concurrent map.
#[verifier::external_body]
pub(crate) fn table_new() -> (t: dashmap::DashMap<usize, i64>) {
    dashmap::DashMap::new()
}

/// Relies on dashmap's `DashMap::insert`: overwrites the entry under `key`
/// with `value`; entries under other keys are untouched. The map is written
/// concurrently by other agents, so nothing is claimed of later reads.
#[verifier::external_body]
pub(crate) fn table_insert(t: &dashmap::DashMap<usize, i64>, key: usize, value: i64) {
    t.insert(key, value);
}

/// Relies on dashmap's `DashMap::get`: a copy of the value currently under
/// `key`, or nothing when no entry exists. Concurrent writers make the
/// result time-dependent, so nothing is claimed of which value comes back.
#[verifier::external_body]
pub(crate) fn table_get(t: &dashmap::DashMap<usize, i64>, key: usize) -> (r: Option<i64>) {
    t.get(&key).map(|v| *v)
}

} // verus!
