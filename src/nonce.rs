use vstd::prelude::*;
use std::sync::Arc;
use crate::address::Address;

verus! {

#[verifier::external_type_specification]
#[verifier::external_body]
#[verifier::reject_recursive_types(T)]
pub struct ExAsyncMutex<T: ?Sized>(futures::lock::Mutex<T>);

/// Relies on futures' `lock::Mutex::new`: a fresh, unlocked asynchronous mutex.
#[verifier::external_body]
fn new_nonce_lock() -> Arc<futures::lock::Mutex<()>> {
    Arc::new(futures::lock::Mutex::new(()))
}

/// Relies on std's `Clone for Arc`: another reference to the same mutex.
#[verifier::external_body]
fn share_lock(lock: &Arc<futures::lock::Mutex<()>>) -> Arc<futures::lock::Mutex<()>> {
    Arc::clone(lock)
}

/// The exclusive-access token of one account's transaction nonce. Handles with the
/// same `id` share one mutex.
#[derive(Debug)]
pub struct NonceHandle {
    id: usize,
    lock: Arc<futures::lock::Mutex<()>>,
}

impl NonceHandle {
    pub closed spec fn id_spec(&self) -> usize {
        self.id
    }

    /// Which handle of the registry this is.
    pub fn id(&self) -> (r: usize)
        ensures
            r == self.id_spec(),
    {
        self.id
    }

    /// The mutex held around reading and advancing the account's nonce.
    pub fn lock(&self) -> &Arc<futures::lock::Mutex<()>> {
        &self.lock
    }

    /// Another reference to the same handle.
    pub fn share(&self) -> (r: NonceHandle)
        ensures
            r.id_spec() == self.id_spec(),
    {
        NonceHandle { id: self.id, lock: share_lock(&self.lock) }
    }
}

/// The process-wide map from an account address to its nonce handle.
#[derive(Debug)]
pub struct NonceRegistry {
    addresses: Vec<Address>,
    handles: Vec<NonceHandle>,
}

/// What acquiring a handle for `address` does: an account already known keeps its
/// handle; a new account gets a handle that no other account has.
pub open spec fn acquires(old_reg: NonceRegistry, address: Address, h: NonceHandle, new_reg: NonceRegistry) -> bool {
    &&& new_reg.wf()
    &&& old_reg@.contains_key(address.0@) ==> h.id_spec() == old_reg@[address.0@] && new_reg@ == old_reg@
    &&& !old_reg@.contains_key(address.0@) ==> new_reg@ == old_reg@.insert(address.0@, h.id_spec())
        && (forall|k: Seq<u8>| old_reg@.contains_key(k) ==> old_reg@[k] != h.id_spec())
}

impl View for NonceRegistry {
    type V = Map<Seq<u8>, usize>;

    closed spec fn view(&self) -> Map<Seq<u8>, usize> {
        Map::new(|k: Seq<u8>| self.has_address(k), |k: Seq<u8>| self.index_of(k) as usize)
    }
}

impl NonceRegistry {
    closed spec fn has_address(&self, k: Seq<u8>) -> bool {
        exists|i: int| 0 <= i < self.addresses@.len() && #[trigger] self.addresses@[i].0@ == k
    }

    closed spec fn index_of(&self, k: Seq<u8>) -> int {
        choose|i: int| 0 <= i < self.addresses@.len() && #[trigger] self.addresses@[i].0@ == k
    }

    /// Each address appears once, and the handle at position `i` has the id `i`.
    pub closed spec fn wf(&self) -> bool {
        &&& self.addresses@.len() == self.handles@.len()
        &&& forall|i: int| 0 <= i < self.handles@.len() ==> (#[trigger] self.handles@[i]).id_spec() == i
        &&& forall|i: int, j: int|
            0 <= i < j < self.addresses@.len() ==> #[trigger] self.addresses@[i].0@ != #[trigger] self.addresses@[j].0@
    }

    pub fn new() -> (r: NonceRegistry)
        ensures
            r.wf(),
            r@ == Map::<Seq<u8>, usize>::empty(),
    {
        let r = NonceRegistry { addresses: Vec::new(), handles: Vec::new() };
        assert(r@ =~= Map::<Seq<u8>, usize>::empty());
        r
    }

    /// The handle of an account, made on first use.
    pub fn acquire(&mut self, address: &Address) -> (r: NonceHandle)
        requires
            old(self).wf(),
        ensures
            acquires(*old(self), *address, r, *final(self)),
    {
        let ghost old_map = self@;
        let mut i: usize = 0;
        while i < self.addresses.len()
            invariant
                self.wf(),
                self@ == old_map,
                i <= self.addresses@.len(),
                forall|j: int| 0 <= j < i ==> #[trigger] self.addresses@[j].0@ != address.0@,
            decreases self.addresses@.len() - i,
        {
            if self.addresses[i].same_as(address) {
                proof {
                    assert(self.has_address(address.0@));
                    let c = self.index_of(address.0@);
                    assert(self.addresses@[c].0@ == address.0@);
                    assert(c == i);
                }
                return self.handles[i].share();
            }
            i = i + 1;
        }
        let id = self.handles.len();
        let handle = NonceHandle { id, lock: new_nonce_lock() };
        let r = handle.share();
        self.addresses.push(*address);
        self.handles.push(handle);
        proof {
            let m = self@;
            let target = old_map.insert(address.0@, id);
            assert(self.addresses@[id as int].0@ == address.0@);
            assert forall|k: Seq<u8>| #[trigger] m.contains_key(k) == target.contains_key(k) by {
                if k == address.0@ {
                    assert(self.has_address(k));
                } else {
                    if old(self).has_address(k) {
                        let c = old(self).index_of(k);
                        assert(self.addresses@[c].0@ == k);
                    }
                    if self.has_address(k) {
                        let c = self.index_of(k);
                        assert(old(self).addresses@[c].0@ == k);
                    }
                }
            }
            assert forall|k: Seq<u8>| #[trigger] m.contains_key(k) implies m[k] == target[k] by {
                let c = self.index_of(k);
                if k == address.0@ {
                    assert(c == id);
                } else {
                    assert(old(self).addresses@[c].0@ == k);
                    let c0 = old(self).index_of(k);
                    assert(self.addresses@[c0].0@ == k);
                    assert(c0 == c);
                }
            }
            assert(m =~= target);
            assert forall|k: Seq<u8>| old_map.contains_key(k) implies old_map[k] != id by {
                let c = old(self).index_of(k);
            }
        }
        r
    }
}

/// Handles are shared per account: two acquisitions, in turn, give the same handle when
/// they are for the same account address and distinct handles when they are not.
pub proof fn lemma_nonce_handles_per_account(
    r0: NonceRegistry,
    a: Address,
    h1: NonceHandle,
    r1: NonceRegistry,
    b: Address,
    h2: NonceHandle,
    r2: NonceRegistry,
)
    requires
        r0.wf(),
        acquires(r0, a, h1, r1),
        acquires(r1, b, h2, r2),
    ensures
        (a.0@ == b.0@) <==> (h1.id_spec() == h2.id_spec()),
{
    assert(r1@.contains_key(a.0@));
    assert(r1@[a.0@] == h1.id_spec());
    if a.0@ != b.0@ && !r1@.contains_key(b.0@) {
        assert(r1@[a.0@] != h2.id_spec());
    }
    if a.0@ != b.0@ && r1@.contains_key(b.0@) {
        lemma_ids_distinct(r1, a.0@, b.0@);
    }
}

/// In a well-formed registry distinct accounts have distinct handles.
proof fn lemma_ids_distinct(r: NonceRegistry, a: Seq<u8>, b: Seq<u8>)
    requires
        r.wf(),
        r@.contains_key(a),
        r@.contains_key(b),
        a != b,
    ensures
        r@[a] != r@[b],
{
    assert(r.has_address(a));
    assert(r.has_address(b));
    let ca = r.index_of(a);
    let cb = r.index_of(b);
    assert(0 <= ca < r.addresses@.len());
    assert(0 <= cb < r.addresses@.len());
    assert(r.addresses@.len() == r.addresses.len());
    assert(r.addresses@[ca].0@ == a);
    assert(r.addresses@[cb].0@ == b);
    assert(ca != cb);
}

} // verus!
