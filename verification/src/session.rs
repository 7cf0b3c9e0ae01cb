//! The registry of live calls: at most one per client and method.
//!
//! A call is admitted by [`SessionMap::try_create`], which hands out a
//! [`SessionGuard`], and leaves the registry when its guard is given back to
//! [`SessionMap::release`]. The registry is changed through `&mut self` only,
//! so that no two admissions can interleave.

use crate::error::{RpcServerError, RpcServerErrorView};
use ahash::RandomState;
use dashmap::DashMap;
use vstd::prelude::*;

verus! {

/// The concurrent map of `dashmap`, carried by the registry.
#[verifier::external_type_specification]
#[verifier::external_body]
#[verifier::reject_recursive_types(K)]
#[verifier::reject_recursive_types(V)]
#[verifier::reject_recursive_types(S)]
pub struct ExDashMap<K, V, S>(dashmap::DashMap<K, V, S>);

/// The hasher state of `ahash`, with which the registry's map is built.
#[verifier::external_type_specification]
#[verifier::external_body]
pub struct ExRandomState(ahash::RandomState);

/// The keys that a map of sessions holds, each as client id and method path.
pub uninterp spec fn registry_keys(map: DashMap<(String, String), (), RandomState>) -> Set<
    (Seq<char>, Seq<char>),
>;

/// `DashMap::default`, which builds a map with a default hasher and nothing in it.
#[verifier::external_body]
fn registry_new() -> (map: DashMap<(String, String), (), RandomState>)
    ensures
        registry_keys(map) == Set::<(Seq<char>, Seq<char>)>::empty(),
{
    DashMap::default()
}

/// `DashMap::insert`, which puts the key in, whether or not it was there, and
/// returns the value that it replaced: the result says whether there was one.
#[verifier::external_body]
fn registry_insert(
    map: &mut DashMap<(String, String), (), RandomState>,
    client_id: String,
    grpc_path: String,
) -> (replaced: bool)
    ensures
        registry_keys(*final(map)) == registry_keys(*old(map)).insert((client_id@, grpc_path@)),
        replaced == registry_keys(*old(map)).contains((client_id@, grpc_path@)),
{
    map.insert((client_id, grpc_path), ()).is_some()
}

/// `DashMap::remove`, which takes the key out if it is there.
#[verifier::external_body]
fn registry_remove(map: &mut DashMap<(String, String), (), RandomState>, key: &(String, String))
    ensures
        registry_keys(*final(map)) == registry_keys(*old(map)).remove((key.0@, key.1@)),
{
    map.remove(key);
}

/// `DashMap::contains_key`, which tells whether the key is there.
#[verifier::external_body]
fn registry_contains(
    map: &DashMap<(String, String), (), RandomState>,
    key: &(String, String),
) -> (r: bool)
    ensures
        r == registry_keys(*map).contains((key.0@, key.1@)),
{
    map.contains_key(key)
}

/// `DashMap::len`, which counts the keys.
#[verifier::external_body]
fn registry_len(map: &DashMap<(String, String), (), RandomState>) -> (n: usize)
    ensures
        n == registry_keys(*map).len(),
{
    map.len()
}

/// `DashMap::is_empty`, which tells whether the map counts no key.
#[verifier::external_body]
fn registry_is_empty(map: &DashMap<(String, String), (), RandomState>) -> (r: bool)
    ensures
        r == (registry_keys(*map).len() == 0),
{
    map.is_empty()
}

/// What identifies a call: the client and the method.
#[derive(Debug, Clone, PartialEq, Eq, Hash)]
pub struct SessionKey {
    pub client_id: String,
    pub grpc_path: String,
}

/// [`SessionKey`] as contracts see it: the client id, then the method path.
pub type SessionKeyView = (Seq<char>, Seq<char>);

impl View for SessionKey {
    type V = SessionKeyView;

    open spec fn view(&self) -> SessionKeyView {
        (self.client_id@, self.grpc_path@)
    }
}

impl SessionKey {
    /// The key of the call of `client_id` on `grpc_path`.
    pub fn new(client_id: &str, grpc_path: &str) -> (r: Self)
        ensures
            r@ == (client_id@, grpc_path@),
    {
        SessionKey { client_id: client_id.to_owned(), grpc_path: grpc_path.to_owned() }
    }

    /// `{client_id}:{grpc_path}`.
    pub fn label(&self) -> (r: String)
        ensures
            r@ == self.client_id@ + seq![':'] + self.grpc_path@,
    {
        proof {
            reveal_strlit(":");
        }
        self.client_id.clone().concat(":").concat(self.grpc_path.as_str())
    }
}

/// The proof that a call was admitted. The call stays in the registry until
/// the guard is given back.
#[must_use]
#[derive(Debug)]
pub struct SessionGuard {
    key: SessionKey,
}

impl View for SessionGuard {
    type V = SessionKeyView;

    closed spec fn view(&self) -> SessionKeyView {
        self.key@
    }
}

impl SessionGuard {
    /// The key of the call.
    pub fn key(&self) -> (r: &SessionKey)
        ensures
            r@ == self@,
    {
        &self.key
    }

    /// The client of the call.
    pub fn client_id(&self) -> (r: &str)
        ensures
            r@ == self@.0,
    {
        self.key.client_id.as_str()
    }

    /// The method of the call.
    pub fn grpc_path(&self) -> (r: &str)
        ensures
            r@ == self@.1,
    {
        self.key.grpc_path.as_str()
    }
}

/// The registry of live calls.
#[derive(Debug)]
pub struct SessionMap {
    sessions: DashMap<(String, String), (), RandomState>,
}

impl View for SessionMap {
    type V = Set<SessionKeyView>;

    closed spec fn view(&self) -> Set<SessionKeyView> {
        registry_keys(self.sessions)
    }
}

/// The registry after `key` asks for admission, and whether it was admitted:
/// it is, and is put in, unless it is there already.
pub open spec fn spec_try_create(live: Set<SessionKeyView>, key: SessionKeyView) -> (
    Set<SessionKeyView>,
    bool,
) {
    if live.contains(key) {
        (live, false)
    } else {
        (live.insert(key), true)
    }
}

impl SessionMap {
    /// A registry without calls.
    pub fn new() -> (r: Self)
        ensures
            r@ == Set::<SessionKeyView>::empty(),
    {
        SessionMap { sessions: registry_new() }
    }

    /// Admits the call of `key` unless one with the same key is live.
    pub fn try_create(&mut self, key: SessionKey) -> (r: Result<SessionGuard, RpcServerError>)
        ensures
            final(self)@ == spec_try_create(old(self)@, key@).0,
            match r {
                Ok(guard) => spec_try_create(old(self)@, key@).1 && guard@ == key@,
                Err(e) => !spec_try_create(old(self)@, key@).1 && e@
                    == (RpcServerErrorView::SessionAlreadyActive {
                    client_id: key.client_id@,
                    grpc_path: key.grpc_path@,
                }),
            },
    {
        let replaced = registry_insert(
            &mut self.sessions,
            key.client_id.clone(),
            key.grpc_path.clone(),
        );
        if replaced {
            Err(
                RpcServerError::SessionAlreadyActive {
                    client_id: key.client_id,
                    grpc_path: key.grpc_path,
                },
            )
        } else {
            Ok(SessionGuard { key })
        }
    }

    /// Takes the call of `guard` out of the registry.
    pub fn release(&mut self, guard: SessionGuard)
        ensures
            final(self)@ == old(self)@.remove(guard@),
    {
        let key = (guard.key.client_id, guard.key.grpc_path);
        registry_remove(&mut self.sessions, &key);
    }

    /// Tells whether a call with this key is live.
    pub fn contains(&self, key: &SessionKey) -> (r: bool)
        ensures
            r == self@.contains(key@),
    {
        let probe = (key.client_id.clone(), key.grpc_path.clone());
        registry_contains(&self.sessions, &probe)
    }

    /// The number of live calls.
    pub fn len(&self) -> (n: usize)
        ensures
            n == self@.len(),
    {
        registry_len(&self.sessions)
    }

    /// Tells whether no call is live.
    pub fn is_empty(&self) -> (r: bool)
        ensures
            r == (self@.len() == 0),
    {
        registry_is_empty(&self.sessions)
    }
}

impl Default for SessionMap {
    fn default() -> (r: Self)
        ensures
            r@ == Set::<SessionKeyView>::empty(),
    {
        SessionMap::new()
    }
}

/// One change of a registry.
pub enum SessionOp {
    /// A call asks for admission under this key.
    TryCreate(SessionKeyView),
    /// The guard of the call with this key is given back.
    Release(SessionKeyView),
}

/// The registry after the changes `ops`, applied to `live` in order.
pub open spec fn spec_run(live: Set<SessionKeyView>, ops: Seq<SessionOp>) -> Set<SessionKeyView>
    decreases ops.len(),
{
    if ops.len() == 0 {
        live
    } else {
        let before = spec_run(live, ops.drop_last());
        match ops.last() {
            SessionOp::TryCreate(key) => spec_try_create(before, key).0,
            SessionOp::Release(key) => before.remove(key),
        }
    }
}

/// True where the last of `ops` is an admission that succeeds.
pub open spec fn last_is_admitted(live: Set<SessionKeyView>, ops: Seq<SessionOp>) -> bool {
    ops.len() > 0 && ops.last() is TryCreate && spec_try_create(
        spec_run(live, ops.drop_last()),
        ops.last()->TryCreate_0,
    ).1
}

/// The number of admissions among `ops` that succeed.
pub open spec fn admitted(live: Set<SessionKeyView>, ops: Seq<SessionOp>) -> nat
    decreases ops.len(),
{
    if ops.len() == 0 {
        0
    } else {
        admitted(live, ops.drop_last()) + if last_is_admitted(live, ops) {
            1nat
        } else {
            0nat
        }
    }
}

/// The number of admissions of `key` among `ops` that succeed.
pub open spec fn admitted_for(
    live: Set<SessionKeyView>,
    ops: Seq<SessionOp>,
    key: SessionKeyView,
) -> nat
    decreases ops.len(),
{
    if ops.len() == 0 {
        0
    } else {
        admitted_for(live, ops.drop_last(), key) + if last_is_admitted(live, ops)
            && ops.last()->TryCreate_0 == key {
            1nat
        } else {
            0nat
        }
    }
}

/// The number of guards given back among `ops`.
pub open spec fn released(ops: Seq<SessionOp>) -> nat
    decreases ops.len(),
{
    if ops.len() == 0 {
        0
    } else {
        released(ops.drop_last()) + if ops.last() is Release {
            1nat
        } else {
            0nat
        }
    }
}

/// True where each guard that `ops` gives back is that of a call which is
/// live at that time, as the guard of an admitted call is until it is given back.
pub open spec fn releases_live_calls(live: Set<SessionKeyView>, ops: Seq<SessionOp>) -> bool {
    forall|i: int|
        0 <= i < ops.len() && ops[i] is Release ==> #[trigger] spec_run(live, ops.take(i)).contains(
            ops[i]->Release_0,
        )
}

/// As long as the guard of `key` is not given back, admission under `key`
/// succeeds at most once, and not at all where a call with `key` was live
/// from the start; and once it has succeeded the call stays in the registry.
pub proof fn lemma_admitted_at_most_once(
    live: Set<SessionKeyView>,
    ops: Seq<SessionOp>,
    key: SessionKeyView,
)
    requires
        forall|i: int| 0 <= i < ops.len() ==> ops[i] != SessionOp::Release(key),
    ensures
        admitted_for(live, ops, key) <= 1,
        live.contains(key) ==> admitted_for(live, ops, key) == 0,
        spec_run(live, ops).contains(key) <==> live.contains(key) || admitted_for(live, ops, key)
            == 1,
    decreases ops.len(),
{
    if ops.len() > 0 {
        let before = ops.drop_last();
        lemma_admitted_at_most_once(live, before, key);
    }
}

/// Once the guard of a call is given back, the call is no longer in the
/// registry, and its key can be admitted again.
pub proof fn lemma_released_key_is_free(
    live: Set<SessionKeyView>,
    ops: Seq<SessionOp>,
    key: SessionKeyView,
)
    ensures
        !spec_run(live, ops.push(SessionOp::Release(key))).contains(key),
        spec_try_create(spec_run(live, ops.push(SessionOp::Release(key))), key).1,
{
}

/// A registry that starts empty holds exactly the live calls: their number
/// is that of the admissions that succeeded less that of the guards given back.
pub proof fn lemma_len_counts_live_calls(ops: Seq<SessionOp>)
    requires
        releases_live_calls(Set::<SessionKeyView>::empty(), ops),
    ensures
        spec_run(Set::<SessionKeyView>::empty(), ops).finite(),
        spec_run(Set::<SessionKeyView>::empty(), ops).len() == admitted(
            Set::<SessionKeyView>::empty(),
            ops,
        ) - released(ops),
    decreases ops.len(),
{
    let none = Set::<SessionKeyView>::empty();
    if ops.len() > 0 {
        let before = ops.drop_last();
        assert forall|i: int|
            0 <= i < before.len() && before[i] is Release implies #[trigger] spec_run(
            none,
            before.take(i),
        ).contains(before[i]->Release_0) by {
            assert(before.take(i) == ops.take(i));
        }
        lemma_len_counts_live_calls(before);
    }
}

} // verus!
