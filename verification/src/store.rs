use vstd::prelude::*;
use dashmap::DashMap;
use crate::session::{Session, SessionView, Snapshot};

verus! {

/// `dashmap::DashMap`, a hash map in shards. Nothing is known of what is
/// inside one but what the functions below say.
#[verifier::external_type_specification]
#[verifier::external_body]
#[verifier::reject_recursive_types(K)]
#[verifier::reject_recursive_types(V)]
#[verifier::reject_recursive_types(S)]
pub struct ExDashMap<K, V, S>(DashMap<K, V, S>);

/// Sessions by game id.
pub type Sessions = Map<Seq<char>, SessionView>;

/// The sessions that a map holds, each under the characters of its key. Two
/// keys are the same key when their characters are the same. Trusted: the
/// functions below say what the map's methods do to it.
pub uninterp spec fn sessions_in(map: DashMap<String, Session>) -> Map<Seq<char>, SessionView>;

/// The sessions of `m` that are not idle at time `now`.
pub open spec fn fresh_part(m: Sessions, now: u64, max_idle: u64) -> Sessions {
    Map::new(|k: Seq<char>| m.contains_key(k) && !m[k].idle(now, max_idle), |k: Seq<char>| m[k])
}

/// `DashMap::new`. Trusted: the new map holds nothing.
#[verifier::external_body]
pub(crate) fn empty_store() -> (store: DashMap<String, Session>)
    ensures
        sessions_in(store) == Sessions::empty(),
{
    DashMap::new()
}

/// `DashMap::contains_key`. Trusted: it tells whether a session is held under
/// the key.
#[verifier::external_body]
pub(crate) fn store_holds(map: &DashMap<String, Session>, key: &str) -> (r: bool)
    ensures
        r == sessions_in(*map).contains_key(key@),
{
    map.contains_key(key)
}

/// `DashMap::view`. Trusted: it hands the session under the key, if there is
/// one, to the function given, here the one that copies out a snapshot, and
/// returns what that function returned.
#[verifier::external_body]
pub(crate) fn store_read(map: &DashMap<String, Session>, key: &str) -> (r: Option<Snapshot>)
    ensures
        r is Some <==> sessions_in(*map).contains_key(key@),
        r matches Some(s) ==> s@ == sessions_in(*map)[key@].snapshot(),
{
    map.view(key, |_, session| session.snapshot())
}

/// `DashMap::insert`. Trusted: afterwards the key holds the new session and
/// every other key holds what it held; the session that the key held before,
/// if any, is returned.
#[verifier::external_body]
pub(crate) fn store_put(map: &mut DashMap<String, Session>, key: String, value: Session) -> (r:
    Option<Session>)
    ensures
        sessions_in(*final(map)) == sessions_in(*old(map)).insert(key@, value@),
        r is Some <==> sessions_in(*old(map)).contains_key(key@),
        r matches Some(s) ==> s@ == sessions_in(*old(map))[key@],
{
    map.insert(key, value)
}

/// `DashMap::remove`. Trusted: afterwards the key holds nothing and every
/// other key holds what it held; the key and the session that it held, if
/// any, are returned.
#[verifier::external_body]
pub(crate) fn store_take(map: &mut DashMap<String, Session>, key: &str) -> (r: Option<
    (String, Session),
>)
    ensures
        sessions_in(*final(map)) == sessions_in(*old(map)).remove(key@),
        r is Some <==> sessions_in(*old(map)).contains_key(key@),
        r matches Some((k, s)) ==> k@ == key@ && s@ == sessions_in(*old(map))[key@],
{
    map.remove(key)
}

/// `DashMap::retain`. Trusted: it keeps, unchanged, the sessions for which the
/// function given returns true, here the ones that are not idle, and discards
/// the others.
#[verifier::external_body]
pub(crate) fn store_keep_fresh(map: &mut DashMap<String, Session>, now: u64, max_idle: u64)
    ensures
        sessions_in(*final(map)) == fresh_part(sessions_in(*old(map)), now, max_idle),
{
    map.retain(|_, session| session.is_fresh(now, max_idle))
}

} // verus!
