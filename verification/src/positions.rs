//! Ordering the positions of a list by a strict total order on them.
//!
//! Sorting positions rather than values keeps every sort of the library stable: an order
//! that breaks its remaining ties by position is strict, so the sorted positions are
//! unique.
use vstd::prelude::*;

use crate::text::{compare_text, lemma_lex_order_facts, lex_order};

verus! {

/// A strict total order on the positions `0..size()` of some list.
pub trait PositionOrder {
    /// How many positions are ordered.
    spec fn size(&self) -> nat;

    /// Whether position `i` comes before position `j`.
    spec fn before(&self, i: int, j: int) -> bool;

    /// The order is irreflexive, total on distinct positions and transitive.
    proof fn lemma_strict_total(&self, i: int, j: int, k: int)
        requires
            0 <= i < self.size(),
            0 <= j < self.size(),
            0 <= k < self.size(),
        ensures
            !self.before(i, i),
            i != j ==> self.before(i, j) || self.before(j, i),
            self.before(i, j) && self.before(j, k) ==> self.before(i, k),
    ;

    fn is_before(&self, i: usize, j: usize) -> (r: bool)
        requires
            i < self.size(),
            j < self.size(),
        ensures
            r == self.before(i as int, j as int),
    ;
}

/// Every entry of `ps` is a position of the order.
pub open spec fn in_range<O: PositionOrder>(o: &O, ps: Seq<usize>) -> bool {
    forall|k: int| 0 <= k < ps.len() ==> (#[trigger] ps[k]) < o.size()
}

/// Whether `ps` lists positions strictly in the order.
pub open spec fn ordered<O: PositionOrder>(o: &O, ps: Seq<usize>) -> bool {
    forall|a: int, b: int| 0 <= a < b < ps.len() ==> o.before(#[trigger] ps[a] as int, #[trigger] ps[b] as int)
}

/// Whether no position occurs twice in `ps`.
pub open spec fn distinct(ps: Seq<usize>) -> bool {
    forall|a: int, b: int| 0 <= a < b < ps.len() ==> #[trigger] ps[a] != #[trigger] ps[b]
}

/// The positions `0..n`, in increasing order.
pub open spec fn upto(n: nat) -> Seq<usize> {
    Seq::new(n, |i: int| i as usize)
}

/// The positions `0..n`.
pub fn positions_upto(n: usize) -> (r: Vec<usize>)
    ensures
        r@ == upto(n as nat),
{
    let mut v: Vec<usize> = Vec::new();
    let mut i: usize = 0;
    while i < n
        invariant
            i <= n,
            v@ == upto(i as nat),
        decreases n - i,
    {
        v.push(i);
        assert(v@ =~= upto((i + 1) as nat));
        i = i + 1;
    }
    v
}

/// The positions of `ps` rearranged into the order; a selection of the first remaining
/// position at each step.
pub fn sort_positions<O: PositionOrder>(o: &O, ps: Vec<usize>) -> (r: Vec<usize>)
    requires
        in_range(o, ps@),
        distinct(ps@),
    ensures
        r@.to_multiset() == ps@.to_multiset(),
        r@.len() == ps@.len(),
        in_range(o, r@),
        ordered(o, r@),
{
    let ghost original = ps@;
    let mut rest = ps;
    let mut out: Vec<usize> = Vec::new();
    proof {
        broadcast use vstd::seq_lib::group_to_multiset_ensures, vstd::multiset::group_multiset_axioms;
        assert(out@.to_multiset() =~= vstd::multiset::Multiset::empty());
        assert(out@.to_multiset().add(rest@.to_multiset()) =~= original.to_multiset());
    }
    while rest.len() > 0
        invariant
            out@.to_multiset().add(rest@.to_multiset()) == original.to_multiset(),
            out@.len() + rest@.len() == original.len(),
            in_range(o, out@),
            in_range(o, rest@),
            distinct(rest@),
            ordered(o, out@),
            forall|a: int, b: int| 0 <= a < out@.len() && 0 <= b < rest@.len() ==> o.before(#[trigger] out@[a] as int, #[trigger] rest@[b] as int),
        decreases rest.len(),
    {
        let mut best: usize = 0;
        let mut i: usize = 1;
        while i < rest.len()
            invariant
                0 < rest@.len(),
                best < rest@.len(),
                1 <= i <= rest@.len(),
                in_range(o, rest@),
                forall|j: int| 0 <= j < i ==> rest@[j] == rest@[best as int] || o.before(rest@[best as int] as int, #[trigger] rest@[j] as int),
            decreases rest.len() - i,
        {
            if o.is_before(rest[i], rest[best]) {
                proof {
                    assert forall|j: int| 0 <= j < i + 1 implies rest@[j] == rest@[i as int] || o.before(rest@[i as int] as int, #[trigger] rest@[j] as int) by {
                        if j < i {
                            o.lemma_strict_total(rest@[i as int] as int, rest@[best as int] as int, rest@[j] as int);
                        }
                    }
                }
                best = i;
            } else {
                proof {
                    o.lemma_strict_total(rest@[i as int] as int, rest@[best as int] as int, rest@[best as int] as int);
                }
            }
            i = i + 1;
        }
        let ghost before_rest = rest@;
        let ghost before_out = out@;
        proof {
            broadcast use vstd::seq_lib::group_to_multiset_ensures, vstd::multiset::group_multiset_axioms;
        }
        let p = rest.remove(best);
        out.push(p);
        proof {
            broadcast use vstd::seq_lib::group_to_multiset_ensures, vstd::multiset::group_multiset_axioms;
            assert(rest@ == before_rest.remove(best as int));
            assert(out@ == before_out.push(p));
            assert(out@.to_multiset().add(rest@.to_multiset()) =~= original.to_multiset());
            assert forall|k: int| 0 <= k < out@.len() implies (#[trigger] out@[k]) < o.size() by {
                if k < before_out.len() {
                    assert(out@[k] == before_out[k]);
                }
            }
            assert forall|k: int| 0 <= k < rest@.len() implies (#[trigger] rest@[k]) < o.size() by {
                let ok = if k < best { k } else { k + 1 };
                assert(rest@[k] == before_rest[ok]);
            }
            assert forall|a: int, b: int| 0 <= a < b < rest@.len() implies #[trigger] rest@[a] != #[trigger] rest@[b] by {
                let oa = if a < best { a } else { a + 1 };
                let ob = if b < best { b } else { b + 1 };
                assert(rest@[a] == before_rest[oa]);
                assert(rest@[b] == before_rest[ob]);
            }
            assert forall|a: int, b: int| 0 <= a < b < out@.len() implies o.before(#[trigger] out@[a] as int, #[trigger] out@[b] as int) by {
                assert(out@[a] == before_out[a]);
                if b == out@.len() - 1 {
                    assert(out@[b] == before_rest[best as int]);
                } else {
                    assert(out@[b] == before_out[b]);
                }
            }
            assert forall|a: int, b: int| 0 <= a < out@.len() && 0 <= b < rest@.len() implies o.before(#[trigger] out@[a] as int, #[trigger] rest@[b] as int) by {
                let ob = if b < best { b } else { b + 1 };
                assert(rest@[b] == before_rest[ob]);
                assert(before_rest[ob] != before_rest[best as int]);
                if a == out@.len() - 1 {
                    assert(out@[a] == before_rest[best as int]);
                    assert(before_rest[ob] == before_rest[best as int] || o.before(before_rest[best as int] as int, before_rest[ob] as int));
                } else {
                    assert(out@[a] == before_out[a]);
                }
            }
        }
    }
    proof {
        broadcast use vstd::seq_lib::group_to_multiset_ensures, vstd::multiset::group_multiset_axioms;
        assert(rest@.to_multiset() =~= vstd::multiset::Multiset::empty());
        assert(out@.to_multiset() =~= original.to_multiset());
    }
    out
}

/// One component of a sort key: text in increasing or decreasing code point order, or a
/// number in increasing order.
#[derive(Clone, Debug, PartialEq, Eq)]
pub enum Part {
    Up(String),
    Down(String),
    Num(u64),
}

/// A component as a value: its kind, its text and its number (unused fields are empty).
pub open spec fn part_view(p: Part) -> (int, Seq<char>, int) {
    match p {
        Part::Up(s) => (0, s@, 0),
        Part::Down(s) => (1, s@, 0),
        Part::Num(n) => (2, Seq::empty(), n as int),
    }
}

/// Comparison of two components: -1, 0 or 1.
pub open spec fn part_order(a: (int, Seq<char>, int), b: (int, Seq<char>, int)) -> int {
    if a.0 != b.0 {
        if a.0 < b.0 {
            -1
        } else {
            1
        }
    } else if a.0 == 0 {
        lex_order(a.1, b.1)
    } else if a.0 == 1 {
        lex_order(b.1, a.1)
    } else if a.2 < b.2 {
        -1
    } else if a.2 > b.2 {
        1
    } else {
        0
    }
}

/// Whether a component value is one that `part_view` gives.
pub open spec fn part_ok(a: (int, Seq<char>, int)) -> bool {
    &&& 0 <= a.0 <= 2
    &&& a.0 == 2 ==> a.1 == Seq::<char>::empty()
    &&& a.0 != 2 ==> a.2 == 0
}

/// Lexicographic comparison of two sort keys, a shorter prefix first: -1, 0 or 1.
pub open spec fn key_order(a: Seq<(int, Seq<char>, int)>, b: Seq<(int, Seq<char>, int)>) -> int
    decreases a.len(),
{
    if a.len() == 0 {
        if b.len() == 0 {
            0
        } else {
            -1
        }
    } else if b.len() == 0 {
        1
    } else if part_order(a[0], b[0]) != 0 {
        part_order(a[0], b[0])
    } else {
        key_order(a.drop_first(), b.drop_first())
    }
}

/// A sort key as values.
pub open spec fn key_view(k: Seq<Part>) -> Seq<(int, Seq<char>, int)> {
    k.map_values(|p: Part| part_view(p))
}

/// Every component of a key value is well formed.
pub open spec fn key_ok(k: Seq<(int, Seq<char>, int)>) -> bool {
    forall|i: int| 0 <= i < k.len() ==> part_ok(#[trigger] k[i])
}

proof fn lemma_part_facts(a: (int, Seq<char>, int), b: (int, Seq<char>, int), c: (int, Seq<char>, int))
    requires
        part_ok(a),
        part_ok(b),
        part_ok(c),
    ensures
        part_order(a, b) == -part_order(b, a),
        part_order(a, b) == 0 <==> a == b,
        part_order(a, b) < 0 && part_order(b, c) < 0 ==> part_order(a, c) < 0,
        -1 <= part_order(a, b) <= 1,
{
    lemma_lex_order_facts(a.1, b.1, c.1);
    lemma_lex_order_facts(b.1, a.1, c.1);
    lemma_lex_order_facts(c.1, b.1, a.1);
    lemma_lex_order_facts(a.1, c.1, b.1);
}

/// Comparing sort keys is antisymmetric, zero exactly on equal keys, and transitive.
pub proof fn lemma_parts_facts(a: Seq<(int, Seq<char>, int)>, b: Seq<(int, Seq<char>, int)>, c: Seq<(int, Seq<char>, int)>)
    requires
        key_ok(a),
        key_ok(b),
        key_ok(c),
    ensures
        key_order(a, b) == -key_order(b, a),
        key_order(a, b) == 0 <==> a == b,
        key_order(a, b) < 0 && key_order(b, c) < 0 ==> key_order(a, c) < 0,
    decreases a.len() + b.len() + c.len(),
{
    if a.len() > 0 && b.len() > 0 {
        lemma_part_facts(a[0], b[0], a[0]);
        if c.len() > 0 {
            lemma_part_facts(a[0], b[0], c[0]);
            lemma_part_facts(b[0], c[0], a[0]);
            lemma_part_facts(a[0], c[0], b[0]);
        }
        let c2 = if c.len() > 0 { c.drop_first() } else { c };
        assert(key_ok(a.drop_first()));
        assert(key_ok(b.drop_first()));
        assert(key_ok(c2));
        lemma_parts_facts(a.drop_first(), b.drop_first(), c2);
        if a.drop_first() == b.drop_first() && a[0] == b[0] {
            assert(a =~= seq![a[0]] + a.drop_first());
            assert(b =~= seq![b[0]] + b.drop_first());
        }
        if a == b {
            assert(a.drop_first() =~= b.drop_first());
        }
    } else if a.len() == 0 && b.len() == 0 {
        assert(a =~= b);
    } else if a.len() == 0 {
        if c.len() > 0 {
        }
    }
}

/// Positions ordered by their sort keys, equal keys by position.
pub struct KeyedPositions {
    pub keys: Vec<Vec<Part>>,
}

impl KeyedPositions {
    /// The key of position `i` as values.
    pub open spec fn key_at(&self, i: int) -> Seq<(int, Seq<char>, int)> {
        key_view(self.keys@[i]@)
    }
}

/// The values of a key of components are well formed.
pub proof fn lemma_key_view_ok(k: Seq<Part>)
    ensures
        key_ok(key_view(k)),
{
}

impl PositionOrder for KeyedPositions {
    open spec fn size(&self) -> nat {
        self.keys@.len()
    }

    open spec fn before(&self, i: int, j: int) -> bool {
        let c = key_order(self.key_at(i), self.key_at(j));
        c < 0 || (c == 0 && i < j)
    }

    proof fn lemma_strict_total(&self, i: int, j: int, k: int) {
        lemma_key_view_ok(self.keys@[i]@);
        lemma_key_view_ok(self.keys@[j]@);
        lemma_key_view_ok(self.keys@[k]@);
        lemma_parts_facts(self.key_at(i), self.key_at(j), self.key_at(k));
        lemma_parts_facts(self.key_at(i), self.key_at(i), self.key_at(k));
        lemma_parts_facts(self.key_at(j), self.key_at(k), self.key_at(i));
        lemma_parts_facts(self.key_at(i), self.key_at(k), self.key_at(j));
    }

    fn is_before(&self, i: usize, j: usize) -> (r: bool) {
        let c = compare_keys(&self.keys[i], &self.keys[j]);
        c < 0 || (c == 0 && i < j)
    }
}

fn compare_part(a: &Part, b: &Part) -> (r: i8)
    ensures
        r as int == part_order(part_view(*a), part_view(*b)),
{
    match (a, b) {
        (Part::Up(x), Part::Up(y)) => compare_text(x.as_str(), y.as_str()),
        (Part::Down(x), Part::Down(y)) => compare_text(y.as_str(), x.as_str()),
        (Part::Num(x), Part::Num(y)) => {
            if *x < *y {
                -1
            } else if *x > *y {
                1
            } else {
                0
            }
        },
        (Part::Up(_), _) => -1,
        (Part::Down(_), Part::Up(_)) => 1,
        (Part::Down(_), Part::Num(_)) => -1,
        (Part::Num(_), _) => 1,
    }
}

/// Lexicographic comparison of two sort keys.
pub fn compare_keys(a: &Vec<Part>, b: &Vec<Part>) -> (r: i8)
    ensures
        r as int == key_order(key_view(a@), key_view(b@)),
{
    let ghost ka = key_view(a@);
    let ghost kb = key_view(b@);
    let mut i: usize = 0;
    assert(ka.subrange(0, ka.len() as int) =~= ka);
    assert(kb.subrange(0, kb.len() as int) =~= kb);
    while i < a.len() && i < b.len()
        invariant
            ka == key_view(a@),
            kb == key_view(b@),
            i <= a@.len(),
            i <= b@.len(),
            key_order(ka, kb) == key_order(ka.subrange(i as int, ka.len() as int), kb.subrange(i as int, kb.len() as int)),
        decreases a.len() - i,
    {
        let c = compare_part(&a[i], &b[i]);
        let ghost sa = ka.subrange(i as int, ka.len() as int);
        let ghost sb = kb.subrange(i as int, kb.len() as int);
        assert(sa[0] == part_view(a@[i as int]));
        assert(sb[0] == part_view(b@[i as int]));
        if c != 0 {
            return c;
        }
        assert(sa.drop_first() =~= ka.subrange(i + 1, ka.len() as int));
        assert(sb.drop_first() =~= kb.subrange(i + 1, kb.len() as int));
        i = i + 1;
    }
    let ghost sa = ka.subrange(i as int, ka.len() as int);
    let ghost sb = kb.subrange(i as int, kb.len() as int);
    if i < a.len() {
        assert(sa.len() > 0 && sb.len() == 0);
        1
    } else if i < b.len() {
        assert(sa.len() == 0 && sb.len() > 0);
        -1
    } else {
        assert(sa.len() == 0 && sb.len() == 0);
        0
    }
}

} // verus!
