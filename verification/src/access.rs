//! Access that capabilities request to components and resources.
use bevy_platform::collections::HashMap;
use std::any::TypeId;
use vstd::prelude::*;

verus! {

/// Mutability of a component or resource access after one more request, given the mutability
/// recorded so far (`None` for the first request).
pub open spec fn spec_merged(existing: Option<bool>, mutable: bool) -> bool {
    match existing {
        Some(m) => m || mutable,
        None => mutable,
    }
}

/// Mutability of an access after one more request: the access is mutable once any request
/// asked for mutable access.
pub fn merged_mutability(existing: Option<bool>, mutable: bool) -> (r: bool)
    ensures
        r == spec_merged(existing, mutable),
{
    match existing {
        Some(m) => m || mutable,
        None => mutable,
    }
}

/// Requests never take mutability away, and the order of two requests does not matter.
pub proof fn law_mutability_accumulates(existing: Option<bool>, a: bool, b: bool)
    ensures
        spec_merged(Some(true), a),
        spec_merged(Some(spec_merged(existing, a)), b) == spec_merged(
            Some(spec_merged(existing, b)),
            a,
        ),
        spec_merged(Some(spec_merged(existing, a)), b) == (existing == Some(true) || a || b),
{
}

/// What an access request is for.
#[derive(Clone, Copy, Debug, PartialEq, Eq, Hash)]
pub enum AccessKey {
    /// A component, by the index of its component id.
    Component(u64),
    /// A resource, by its type.
    Resource(TypeId),
}

/// The map that holds the mutability of each requested access.
pub type AccessMap = HashMap<AccessKey, bool>;

/// The entries of an access map: keys and values as `bevy_platform`'s `HashMap` holds them,
/// keys compared by their fields.
pub uninterp spec fn access_entries(m: AccessMap) -> Map<AccessKey, bool>;

/// Calls `Default::default` for `bevy_platform`'s `HashMap`. Claimed: the map is empty.
#[verifier::external_body]
fn access_map_new() -> (r: AccessMap)
    ensures
        access_entries(r) =~= Map::empty(),
{
    HashMap::default()
}

/// Calls `HashMap::insert` of `bevy_platform`. Claimed: the key now maps to the value.
#[verifier::external_body]
fn access_map_insert(m: &mut AccessMap, k: AccessKey, v: bool)
    ensures
        access_entries(*final(m)) == access_entries(*old(m)).insert(k, v),
{
    m.insert(k, v);
}

/// Calls `HashMap::get` of `bevy_platform` and copies the value out. Claimed: the value of the
/// key, if it has one.
#[verifier::external_body]
fn access_map_get(m: &AccessMap, k: &AccessKey) -> (r: Option<bool>)
    ensures
        r == lookup(access_entries(*m), *k),
{
    m.get(k).copied()
}

/// The mutability recorded for `key`, if it was requested.
pub open spec fn lookup(m: Map<AccessKey, bool>, key: AccessKey) -> Option<bool> {
    if m.contains_key(key) {
        Some(m[key])
    } else {
        None
    }
}

/// The recorded accesses after one more request for `key`.
pub open spec fn request_step(m: Map<AccessKey, bool>, key: AccessKey, mutable: bool) -> Map<
    AccessKey,
    bool,
> {
    m.insert(key, spec_merged(lookup(m, key), mutable))
}

/// The recorded accesses after each of `requests` in turn.
pub open spec fn requests_applied(m: Map<AccessKey, bool>, requests: Seq<(AccessKey, bool)>) -> Map<
    AccessKey,
    bool,
>
    decreases requests.len(),
{
    if requests.len() == 0 {
        m
    } else {
        request_step(
            requests_applied(m, requests.drop_last()),
            requests.last().0,
            requests.last().1,
        )
    }
}

/// Some of `requests` is for `key`.
pub open spec fn requested(requests: Seq<(AccessKey, bool)>, key: AccessKey) -> bool {
    exists|i: int| 0 <= i < requests.len() && (#[trigger] requests[i]).0 == key
}

/// Some of `requests` asks for mutable access to `key`.
pub open spec fn requested_mutably(requests: Seq<(AccessKey, bool)>, key: AccessKey) -> bool {
    exists|i: int| 0 <= i < requests.len() && #[trigger] requests[i] == (key, true)
}

/// Tracks what kind of accesses a capability has requested, and whether each must be mutable.
pub struct AccessRequests {
    entries: AccessMap,
}

impl View for AccessRequests {
    type V = Map<AccessKey, bool>;

    closed spec fn view(&self) -> Map<AccessKey, bool> {
        access_entries(self.entries)
    }
}

impl AccessRequests {
    /// No access requested.
    pub fn new() -> (r: Self)
        ensures
            r@ == Map::<AccessKey, bool>::empty(),
    {
        AccessRequests { entries: access_map_new() }
    }

    /// Request access to `key`; it is recorded once, mutable once any request asked for
    /// mutable access.
    pub fn request(&mut self, key: AccessKey, mutable: bool)
        ensures
            final(self)@ == request_step(old(self)@, key, mutable),
    {
        let existing = access_map_get(&self.entries, &key);
        let merged = merged_mutability(existing, mutable);
        access_map_insert(&mut self.entries, key, merged);
    }

    /// Whether access to `key` must be mutable; `None` when it was never requested.
    pub fn mutability(&self, key: AccessKey) -> (r: Option<bool>)
        ensures
            r == lookup(self@, key),
    {
        access_map_get(&self.entries, &key)
    }
}

/// After any run of requests each requested key is recorded once, alongside what was recorded
/// before; it is mutable exactly when it was mutable before or some request for it asked for
/// mutable access; keys that no request names keep what they had.
pub proof fn law_requests_accumulate(m: Map<AccessKey, bool>, requests: Seq<(AccessKey, bool)>)
    ensures
        forall|key: AccessKey|
            #![trigger requests_applied(m, requests).contains_key(key)]
            requests_applied(m, requests).contains_key(key) == (m.contains_key(key) || requested(
                requests,
                key,
            )),
        forall|key: AccessKey|
            #![trigger requests_applied(m, requests)[key]]
            requests_applied(m, requests).contains_key(key) ==> requests_applied(m, requests)[key]
                == (lookup(m, key) == Some(true) || requested_mutably(requests, key)),
        forall|key: AccessKey|
            !requested(requests, key) ==> #[trigger] lookup(requests_applied(m, requests), key)
                == lookup(m, key),
    decreases requests.len(),
{
    if requests.len() > 0 {
        let prefix = requests.drop_last();
        law_requests_accumulate(m, prefix);
        let last = requests.len() - 1;
        assert(requests[last] == requests.last());
        assert forall|key: AccessKey| requested(requests, key) == (requested(prefix, key) || key
            == requests.last().0) by {
            if requested(prefix, key) {
                let i = choose|i: int| 0 <= i < prefix.len() && (#[trigger] prefix[i]).0 == key;
                assert(requests[i] == prefix[i]);
            }
            if requested(requests, key) && key != requests.last().0 {
                let i = choose|i: int| 0 <= i < requests.len() && (#[trigger] requests[i]).0 == key;
                assert(prefix[i] == requests[i]);
            }
            if key == requests.last().0 {
                assert(requests[last].0 == key);
            }
        }
        assert forall|key: AccessKey| requested_mutably(requests, key) == (requested_mutably(
            prefix,
            key,
        ) || requests.last() == (key, true)) by {
            if requested_mutably(prefix, key) {
                let i = choose|i: int| 0 <= i < prefix.len() && #[trigger] prefix[i] == (key, true);
                assert(requests[i] == prefix[i]);
            }
            if requested_mutably(requests, key) && requests.last() != (key, true) {
                let i = choose|i: int|
                    0 <= i < requests.len() && #[trigger] requests[i] == (key, true);
                assert(prefix[i] == requests[i]);
            }
            if requests.last() == (key, true) {
                assert(requests[last] == (key, true));
            }
        }
    }
}

/// A run of [`AccessRequests::request`] calls, as its contract states each of them: `calls[i]`
/// is the tracker before the `i`-th request and `calls[i + 1]` the tracker after it. The tracker
/// after the run holds the accesses that [`law_requests_accumulate`] describes.
pub proof fn law_request_calls(calls: Seq<AccessRequests>, requests: Seq<(AccessKey, bool)>)
    requires
        calls.len() == requests.len() + 1,
        forall|i: int|
            0 <= i < requests.len() ==> (#[trigger] calls[i + 1])@ == request_step(
                calls[i]@,
                requests[i].0,
                requests[i].1,
            ),
    ensures
        calls.last()@ == requests_applied(calls[0]@, requests),
        forall|key: AccessKey|
            #![trigger calls.last()@.contains_key(key)]
            calls.last()@.contains_key(key) == (calls[0]@.contains_key(key) || requested(
                requests,
                key,
            )),
        forall|key: AccessKey|
            #![trigger calls.last()@[key]]
            calls.last()@.contains_key(key) ==> calls.last()@[key] == (lookup(calls[0]@, key)
                == Some(true) || requested_mutably(requests, key)),
        forall|key: AccessKey|
            !requested(requests, key) ==> #[trigger] lookup(calls.last()@, key) == lookup(
                calls[0]@,
                key,
            ),
    decreases requests.len(),
{
    if requests.len() > 0 {
        let n = requests.len() - 1;
        let prefix = calls.drop_last();
        assert forall|i: int| 0 <= i < requests.drop_last().len() implies (#[trigger] prefix[i
            + 1])@ == request_step(
            prefix[i]@,
            requests.drop_last()[i].0,
            requests.drop_last()[i].1,
        ) by {
            assert(prefix[i + 1] == calls[i + 1]);
        }
        law_request_calls(prefix, requests.drop_last());
        assert(calls[n + 1]@ == request_step(calls[n]@, requests[n].0, requests[n].1));
        assert(prefix.last() == calls[n]);
        assert(prefix[0] == calls[0]);
    }
    law_requests_accumulate(calls[0]@, requests);
}

} // verus!
