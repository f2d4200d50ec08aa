//! A small association list keyed by artwork identity.
use vstd::prelude::*;

use crate::artwork::{key_view, ArtworkKey};

verus! {

/// The value stored under the first key with identity `k` among `keys`, paired with `vals`.
pub open spec fn lookup<V>(keys: Seq<ArtworkKey>, vals: Seq<V>, k: (u8, Seq<char>)) -> Option<V>
    decreases keys.len(),
{
    if keys.len() == 0 || vals.len() == 0 {
        None
    } else if key_view(keys[0]) == k {
        Some(vals[0])
    } else {
        lookup(keys.drop_first(), vals.drop_first(), k)
    }
}

/// The first of two lookups that found something.
pub open spec fn combine<V>(first: Option<V>, second: Option<V>) -> Option<V> {
    if first is Some {
        first
    } else {
        second
    }
}

/// Values stored under artwork keys; each key occurs at most once.
#[derive(Clone, Debug, PartialEq, Eq)]
pub struct ArtworkMap<V> {
    keys: Vec<ArtworkKey>,
    vals: Vec<V>,
}

impl<V> ArtworkMap<V> {
    pub closed spec fn get_spec(&self, k: (u8, Seq<char>)) -> Option<V> {
        lookup(self.keys@, self.vals@, k)
    }

    pub closed spec fn size(&self) -> nat {
        self.keys@.len()
    }

    pub closed spec fn wf(&self) -> bool {
        self.keys@.len() == self.vals@.len()
    }

    pub closed spec fn key_seq(&self) -> Seq<ArtworkKey> {
        self.keys@
    }

    pub closed spec fn val_seq(&self) -> Seq<V> {
        self.vals@
    }

    pub fn new() -> (r: Self)
        ensures
            r.wf(),
            r.size() == 0,
            forall|k: (u8, Seq<char>)| (#[trigger] r.get_spec(k)) is None,
    {
        ArtworkMap { keys: Vec::new(), vals: Vec::new() }
    }

    fn position(&self, key: &ArtworkKey) -> (r: Option<usize>)
        requires
            self.wf(),
        ensures
            r is None ==> self.get_spec(key_view(*key)) is None,
            r matches Some(i) ==> i < self.keys@.len() && self.get_spec(key_view(*key)) == Some(self.vals@[i as int]),
    {
        let mut i: usize = 0;
        assert(self.keys@.subrange(0, self.keys@.len() as int) =~= self.keys@);
        assert(self.vals@.subrange(0, self.vals@.len() as int) =~= self.vals@);
        while i < self.keys.len()
            invariant
                self.wf(),
                i <= self.keys@.len(),
                forall|j: int| 0 <= j < i ==> key_view(self.keys@[j]) != key_view(*key),
                lookup(self.keys@, self.vals@, key_view(*key)) == lookup(
                    self.keys@.subrange(i as int, self.keys@.len() as int),
                    self.vals@.subrange(i as int, self.vals@.len() as int),
                    key_view(*key),
                ),
            decreases self.keys.len() - i,
        {
            let ghost ks = self.keys@.subrange(i as int, self.keys@.len() as int);
            let ghost vs = self.vals@.subrange(i as int, self.vals@.len() as int);
            assert(ks[0] == self.keys@[i as int]);
            assert(vs[0] == self.vals@[i as int]);
            if self.keys[i].same(key) {
                return Some(i);
            }
            assert(ks.drop_first() =~= self.keys@.subrange(i + 1, self.keys@.len() as int));
            assert(vs.drop_first() =~= self.vals@.subrange(i + 1, self.vals@.len() as int));
            i = i + 1;
        }
        None
    }

    /// The value stored under `key`.
    pub fn get(&self, key: &ArtworkKey) -> (r: Option<&V>)
        requires
            self.wf(),
        ensures
            r is Some <==> self.get_spec(key_view(*key)) is Some,
            r matches Some(v) ==> *v == self.get_spec(key_view(*key)).unwrap(),
    {
        match self.position(key) {
            Some(i) => Some(&self.vals[i]),
            None => None,
        }
    }

    /// Whether a value is stored under `key`.
    pub fn contains_key(&self, key: &ArtworkKey) -> (r: bool)
        requires
            self.wf(),
        ensures
            r == self.get_spec(key_view(*key)) is Some,
    {
        self.position(key).is_some()
    }

    /// The number of stored keys.
    pub fn len(&self) -> (r: usize)
        ensures
            r == self.size(),
    {
        self.keys.len()
    }

    /// All stored values, in insertion order.
    pub fn values(&self) -> (r: &Vec<V>)
        ensures
            r@ == self.val_seq(),
    {
        &self.vals
    }

    /// Drops the entry for `key`, if any.
    pub fn remove(&mut self, key: &ArtworkKey)
        requires
            old(self).wf(),
        ensures
            final(self).wf(),
            final(self).get_spec(key_view(*key)) is None,
            forall|k: (u8, Seq<char>)| k != key_view(*key) ==> #[trigger] final(self).get_spec(k) == old(self).get_spec(k),
            final(self).size() <= old(self).size(),
    {
        let mut keys: Vec<ArtworkKey> = Vec::new();
        let mut vals: Vec<V> = Vec::new();
        let ghost ok = old(self).keys@;
        let ghost ov = old(self).vals@;
        let ghost kv = key_view(*key);
        let mut old_keys: Vec<ArtworkKey> = Vec::new();
        let mut old_vals: Vec<V> = Vec::new();
        std::mem::swap(&mut old_keys, &mut self.keys);
        std::mem::swap(&mut old_vals, &mut self.vals);
        assert(old_keys@.subrange(0, n_spec(old_keys@.len())) =~= old_keys@);
        assert(old_vals@.subrange(0, n_spec(old_vals@.len())) =~= old_vals@);
        let n = old_keys.len();
        let mut i: usize = 0;
        while i < n
            invariant
                n == ok.len(),
                ok.len() == ov.len(),
                kv == key_view(*key),
                ok == old(self).keys@,
                ov == old(self).vals@,
                i <= n,
                old_keys@ == ok.subrange(i as int, n as int),
                old_vals@ == ov.subrange(i as int, n as int),
                keys@.len() == vals@.len(),
                keys@.len() <= i,
                lookup(keys@, vals@, kv) is None,
                forall|k: (u8, Seq<char>)|
                    k != kv ==> #[trigger] lookup(ok, ov, k) == combine(lookup(keys@, vals@, k), lookup(ok.subrange(i as int, n as int), ov.subrange(i as int, n as int), k)),
            decreases n - i,
        {
            let k0 = old_keys.remove(0);
            let v0 = old_vals.remove(0);
            let ghost rest_k = ok.subrange(i as int, n as int);
            let ghost rest_v = ov.subrange(i as int, n as int);
            assert(rest_k[0] == k0);
            assert(rest_v[0] == v0);
            assert(rest_k.drop_first() =~= ok.subrange(i + 1, n as int));
            assert(rest_v.drop_first() =~= ov.subrange(i + 1, n as int));
            let ghost pk = keys@;
            let ghost pv = vals@;
            let ghost gk0 = k0;
            let ghost gv0 = v0;
            let matches_key = k0.same(key);
            if !matches_key {
                keys.push(k0);
                vals.push(v0);
            }
            proof {
                if !matches_key {
                    assert(keys@ =~= pk.push(gk0));
                    assert(vals@ =~= pv.push(gv0));
                    lemma_lookup_push(pk, pv, gk0, gv0, kv);
                } else {
                    assert(keys@ == pk);
                    assert(vals@ == pv);
                }
                assert(lookup(keys@, vals@, kv) is None);
                assert forall|k: (u8, Seq<char>)|
                    k != kv implies #[trigger] lookup(ok, ov, k) == combine(lookup(keys@, vals@, k), lookup(ok.subrange(i + 1, n as int), ov.subrange(i + 1, n as int), k)) by {
                    assert(lookup(ok, ov, k) == combine(lookup(pk, pv, k), lookup(rest_k, rest_v, k)));
                    if !matches_key {
                        lemma_lookup_push(pk, pv, gk0, gv0, k);
                    }
                    assert(lookup(rest_k, rest_v, k) == (if key_view(gk0) == k {
                        Some(gv0)
                    } else {
                        lookup(rest_k.drop_first(), rest_v.drop_first(), k)
                    }));
                }
            }
            i = i + 1;
        }
        self.keys = keys;
        self.vals = vals;
        proof {
            assert forall|k: (u8, Seq<char>)| k != kv implies #[trigger] self.get_spec(k) == old(self).get_spec(k) by {
                assert(lookup(ok.subrange(n as int, n as int), ov.subrange(n as int, n as int), k) is None);
                assert(lookup(ok, ov, k) == combine(lookup(self.keys@, self.vals@, k), lookup(ok.subrange(n as int, n as int), ov.subrange(n as int, n as int), k)));
            }
        }
    }

    /// Stores `value` under `key`, replacing any previous value; the key becomes the newest.
    pub fn insert(&mut self, key: ArtworkKey, value: V)
        requires
            old(self).wf(),
        ensures
            final(self).wf(),
            final(self).get_spec(key_view(key)) == Some(value),
            forall|k: (u8, Seq<char>)| k != key_view(key) ==> #[trigger] final(self).get_spec(k) == old(self).get_spec(k),
            final(self).size() <= old(self).size() + 1,
    {
        self.remove(&key);
        let ghost mid = *self;
        let ghost pk = self.keys@;
        let ghost pv = self.vals@;
        let ghost kv = key_view(key);
        let ghost gk = key;
        let ghost gv = value;
        self.keys.push(key);
        self.vals.push(value);
        proof {
            lemma_lookup_push(pk, pv, gk, gv, kv);
            assert(self.keys@ =~= pk.push(gk));
            assert(self.vals@ =~= pv.push(gv));
            assert forall|k: (u8, Seq<char>)| k != kv implies #[trigger] self.get_spec(k) == old(self).get_spec(k) by {
                assert(mid.get_spec(k) == old(self).get_spec(k));
                lemma_lookup_push(pk, pv, gk, gv, k);
            }
        }
    }
}

pub open spec fn n_spec(n: nat) -> int {
    n as int
}

/// Appending an entry changes only lookups that found nothing before.
pub proof fn lemma_lookup_push<V>(keys: Seq<ArtworkKey>, vals: Seq<V>, k: ArtworkKey, v: V, q: (u8, Seq<char>))
    requires
        keys.len() == vals.len(),
    ensures
        lookup(keys, vals, q) is Some ==> lookup(keys.push(k), vals.push(v), q) == lookup(keys, vals, q),
        lookup(keys, vals, q) is None ==> lookup(keys.push(k), vals.push(v), q) == (if key_view(k) == q {
            Some(v)
        } else {
            None
        }),
    decreases keys.len(),
{
    assert(keys.push(k).len() > 0);
    if keys.len() == 0 {
        assert(keys.push(k)[0] == k);
        assert(vals.push(v)[0] == v);
        assert(keys.push(k).drop_first() =~= Seq::<ArtworkKey>::empty());
        assert(vals.push(v).drop_first() =~= Seq::<V>::empty());
        assert(lookup(Seq::<ArtworkKey>::empty(), Seq::<V>::empty(), q) is None);
        assert(lookup(keys.push(k), vals.push(v), q) == (if key_view(k) == q {
            Some(v)
        } else {
            lookup(keys.push(k).drop_first(), vals.push(v).drop_first(), q)
        }));
    } else {
        assert(keys.push(k)[0] == keys[0]);
        assert(vals.push(v)[0] == vals[0]);
        assert(keys.push(k).drop_first() =~= keys.drop_first().push(k));
        assert(vals.push(v).drop_first() =~= vals.drop_first().push(v));
        lemma_lookup_push(keys.drop_first(), vals.drop_first(), k, v, q);
        if key_view(keys[0]) != q {
            assert(lookup(keys.push(k), vals.push(v), q) == lookup(keys.drop_first().push(k), vals.drop_first().push(v), q));
            assert(lookup(keys, vals, q) == lookup(keys.drop_first(), vals.drop_first(), q));
        }
    }
}

} // verus!
