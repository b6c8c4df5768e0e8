//! Deterministic ordering of resource lists: by id, lexicographically (the order of
//! `str`'s `Ord`, which on characters is the order of their code points); legacy lights,
//! whose ids are small numbers, by number.
use vstd::prelude::*;
use vstd::multiset::Multiset;
use crate::hue::IdentifiedLight;
use crate::resources::{Device, Light, Room, Scene, Zone};
use crate::text::chars_of;

verus! {

/// Whether `a` comes before `b` or equals it, character by character.
pub open spec fn lex_le(a: Seq<char>, b: Seq<char>) -> bool
    decreases a.len(),
{
    if a.len() == 0 {
        true
    } else if b.len() == 0 {
        false
    } else if a[0] != b[0] {
        a[0] < b[0]
    } else {
        lex_le(a.drop_first(), b.drop_first())
    }
}

pub proof fn lemma_lex_reflexive(a: Seq<char>)
    ensures
        lex_le(a, a),
    decreases a.len(),
{
    if a.len() > 0 {
        lemma_lex_reflexive(a.drop_first());
    }
}

pub proof fn lemma_lex_total(a: Seq<char>, b: Seq<char>)
    ensures
        lex_le(a, b) || lex_le(b, a),
    decreases a.len(),
{
    if a.len() > 0 && b.len() > 0 && a[0] == b[0] {
        lemma_lex_total(a.drop_first(), b.drop_first());
    }
}

pub proof fn lemma_lex_transitive(a: Seq<char>, b: Seq<char>, c: Seq<char>)
    requires
        lex_le(a, b),
        lex_le(b, c),
    ensures
        lex_le(a, c),
    decreases a.len(),
{
    if a.len() > 0 && b.len() > 0 && c.len() > 0 && a[0] == b[0] && b[0] == c[0] {
        lemma_lex_transitive(a.drop_first(), b.drop_first(), c.drop_first());
    }
}

/// A resource with an id.
pub trait Identified {
    spec fn id_view(&self) -> Seq<char>;

    fn id_str(&self) -> (r: &str)
        ensures
            r@ == self.id_view(),
    ;
}

impl Identified for Device {
    open spec fn id_view(&self) -> Seq<char> {
        self.id@
    }

    fn id_str(&self) -> (r: &str) {
        self.id.as_str()
    }
}

impl Identified for Light {
    open spec fn id_view(&self) -> Seq<char> {
        self.id@
    }

    fn id_str(&self) -> (r: &str) {
        self.id.as_str()
    }
}

impl Identified for Room {
    open spec fn id_view(&self) -> Seq<char> {
        self.id@
    }

    fn id_str(&self) -> (r: &str) {
        self.id.as_str()
    }
}

impl Identified for Zone {
    open spec fn id_view(&self) -> Seq<char> {
        self.id@
    }

    fn id_str(&self) -> (r: &str) {
        self.id.as_str()
    }
}

impl Identified for Scene {
    open spec fn id_view(&self) -> Seq<char> {
        self.id@
    }

    fn id_str(&self) -> (r: &str) {
        self.id.as_str()
    }
}

/// Compares two texts lexicographically.
pub fn text_le(a: &str, b: &str) -> (r: bool)
    ensures
        r == lex_le(a@, b@),
{
    let x = chars_of(a);
    let y = chars_of(b);
    let mut i: usize = 0;
    proof {
        assert(x@.subrange(0, x@.len() as int) =~= x@);
        assert(y@.subrange(0, y@.len() as int) =~= y@);
    }
    while i < x.len() && i < y.len() && x[i] == y[i]
        invariant
            i <= x@.len(),
            i <= y@.len(),
            lex_le(x@, y@) == lex_le(x@.subrange(i as int, x@.len() as int), y@.subrange(
                i as int,
                y@.len() as int,
            )),
        decreases x@.len() - i,
    {
        proof {
            assert(x@.subrange(i as int, x@.len() as int).drop_first() =~= x@.subrange(
                i + 1,
                x@.len() as int,
            ));
            assert(y@.subrange(i as int, y@.len() as int).drop_first() =~= y@.subrange(
                i + 1,
                y@.len() as int,
            ));
        }
        i = i + 1;
    }
    if i == x.len() {
        true
    } else if i == y.len() {
        false
    } else {
        x[i] < y[i]
    }
}

/// The items whose id is `k`, in their order.
pub open spec fn with_id<T: Identified>(s: Seq<T>, k: Seq<char>) -> Seq<T>
    decreases s.len(),
{
    if s.len() == 0 {
        seq![]
    } else if s.last().id_view() == k {
        with_id(s.drop_last(), k).push(s.last())
    } else {
        with_id(s.drop_last(), k)
    }
}

proof fn lemma_with_id_concat<T: Identified>(a: Seq<T>, b: Seq<T>, k: Seq<char>)
    ensures
        with_id(a + b, k) == with_id(a, k) + with_id(b, k),
    decreases b.len(),
{
    if b.len() == 0 {
        assert(a + b =~= a);
        assert(with_id(a, k) + with_id(b, k) =~= with_id(a, k));
    } else {
        lemma_with_id_concat(a, b.drop_last(), k);
        assert((a + b).drop_last() =~= a + b.drop_last());
        assert((a + b).last() == b.last());
        assert(with_id(a + b, k) =~= with_id(a, k) + with_id(b, k));
    }
}

proof fn lemma_with_id_absent<T: Identified>(a: Seq<T>, k: Seq<char>)
    requires
        forall|i: int| 0 <= i < a.len() ==> (#[trigger] a[i]).id_view() != k,
    ensures
        with_id(a, k) == Seq::<T>::empty(),
    decreases a.len(),
{
    if a.len() > 0 {
        lemma_with_id_absent(a.drop_last(), k);
    }
}

/// The items whose number is `n`, in their order.
pub open spec fn with_number(s: Seq<IdentifiedLight>, n: usize) -> Seq<IdentifiedLight>
    decreases s.len(),
{
    if s.len() == 0 {
        seq![]
    } else if s.last().id == n {
        with_number(s.drop_last(), n).push(s.last())
    } else {
        with_number(s.drop_last(), n)
    }
}

proof fn lemma_with_number_concat(a: Seq<IdentifiedLight>, b: Seq<IdentifiedLight>, n: usize)
    ensures
        with_number(a + b, n) == with_number(a, n) + with_number(b, n),
    decreases b.len(),
{
    if b.len() == 0 {
        assert(a + b =~= a);
        assert(with_number(a, n) + with_number(b, n) =~= with_number(a, n));
    } else {
        lemma_with_number_concat(a, b.drop_last(), n);
        assert((a + b).drop_last() =~= a + b.drop_last());
        assert((a + b).last() == b.last());
        assert(with_number(a + b, n) =~= with_number(a, n) + with_number(b, n));
    }
}

proof fn lemma_with_number_absent(a: Seq<IdentifiedLight>, n: usize)
    requires
        forall|i: int| 0 <= i < a.len() ==> (#[trigger] a[i]).id != n,
    ensures
        with_number(a, n) == Seq::<IdentifiedLight>::empty(),
    decreases a.len(),
{
    if a.len() > 0 {
        lemma_with_number_absent(a.drop_last(), n);
    }
}

/// Whether the items are in order of their ids.
pub open spec fn sorted_by_id<T: Identified>(s: Seq<T>) -> bool {
    forall|i: int, j: int| 0 <= i < j < s.len() ==> lex_le(#[trigger] s[i].id_view(), #[trigger] s[j].id_view())
}

/// The index of the first item whose id is least.
fn index_of_least<T: Identified>(items: &Vec<T>) -> (r: usize)
    requires
        items@.len() > 0,
    ensures
        r < items@.len(),
        forall|j: int| 0 <= j < items@.len() ==> lex_le(items@[r as int].id_view(), #[trigger] items@[j].id_view()),
        forall|j: int| 0 <= j < r ==> (#[trigger] items@[j]).id_view() != items@[r as int].id_view(),
{
    let mut best: usize = 0;
    let mut k: usize = 1;
    proof {
        lemma_lex_reflexive(items@[0].id_view());
    }
    while k < items.len()
        invariant
            best < k <= items@.len(),
            forall|j: int| 0 <= j < k ==> lex_le(items@[best as int].id_view(), #[trigger] items@[j].id_view()),
            forall|j: int| 0 <= j < best ==> (#[trigger] items@[j]).id_view() != items@[best as int].id_view(),
        decreases items@.len() - k,
    {
        if !text_le(items[best].id_str(), items[k].id_str()) {
            proof {
                lemma_lex_total(items@[best as int].id_view(), items@[k as int].id_view());
                assert forall|j: int| 0 <= j < k + 1 implies lex_le(
                    items@[k as int].id_view(),
                    #[trigger] items@[j].id_view(),
                ) by {
                    if j < k {
                        lemma_lex_transitive(
                            items@[k as int].id_view(),
                            items@[best as int].id_view(),
                            items@[j].id_view(),
                        );
                    } else {
                        lemma_lex_reflexive(items@[k as int].id_view());
                    }
                }
                assert forall|j: int| 0 <= j < k implies (#[trigger] items@[j]).id_view()
                    != items@[k as int].id_view() by {
                    assert(lex_le(items@[best as int].id_view(), items@[j].id_view()));
                }
            }
            best = k;
        } else {
            proof {
                assert forall|j: int| 0 <= j < k + 1 implies lex_le(
                    items@[best as int].id_view(),
                    #[trigger] items@[j].id_view(),
                ) by {}
            }
        }
        k = k + 1;
    }
    best
}

/// The items in order of their ids: the same items, each as often as before, and items
/// with equal ids in the order they came in.
pub fn sort_by_id<T: Identified>(items: Vec<T>) -> (r: Vec<T>)
    ensures
        sorted_by_id(r@),
        r@.to_multiset() == items@.to_multiset(),
        forall|k: Seq<char>| #[trigger] with_id(r@, k) == with_id(items@, k),
{
    broadcast use vstd::seq_lib::group_to_multiset_ensures;
    broadcast use vstd::multiset::group_multiset_axioms;

    let ghost orig = items@;
    let mut rest = items;
    let mut out: Vec<T> = Vec::new();
    proof {
        assert(out@.to_multiset() =~= Multiset::<T>::empty());
        assert(out@.to_multiset().add(rest@.to_multiset()) =~= orig.to_multiset());
        assert forall|q: Seq<char>| #[trigger] with_id(orig, q) == with_id(out@, q) + with_id(rest@, q) by {
            assert(with_id(out@, q) =~= Seq::<T>::empty());
            assert(with_id(out@, q) + with_id(rest@, q) =~= with_id(rest@, q));
        }
    }
    while rest.len() > 0
        invariant
            sorted_by_id(out@),
            forall|i: int, j: int|
                0 <= i < out@.len() && 0 <= j < rest@.len() ==> lex_le(
                    #[trigger] out@[i].id_view(),
                    #[trigger] rest@[j].id_view(),
                ),
            out@.to_multiset().add(rest@.to_multiset()) == orig.to_multiset(),
            forall|q: Seq<char>| #[trigger] with_id(orig, q) == with_id(out@, q) + with_id(rest@, q),
        decreases rest@.len(),
    {
        let k = index_of_least(&rest);
        let ghost before_rest = rest@;
        let ghost before_out = out@;
        let item = rest.remove(k);
        out.push(item);
        proof {
            let p = before_rest[k as int];
            assert(before_rest.contains(p));
            vstd::seq_lib::to_multiset_contains(before_rest, p);
            vstd::seq_lib::to_multiset_remove(before_rest, k as int);
            vstd::seq_lib::to_multiset_build(before_out, p);
            assert(rest@ == before_rest.remove(k as int));
            assert(out@ == before_out.push(p));
            assert(out@.to_multiset().add(rest@.to_multiset()) =~= orig.to_multiset());
            let a = before_rest.subrange(0, k as int);
            let b = before_rest.subrange(k + 1, before_rest.len() as int);
            assert(before_rest =~= a + (seq![p] + b));
            assert(rest@ =~= a + b);
            assert(out@.drop_last() =~= before_out);
            assert(seq![p].drop_last() =~= Seq::<T>::empty());
            assert forall|q: Seq<char>| #[trigger] with_id(orig, q) == with_id(out@, q) + with_id(rest@, q) by {
                lemma_with_id_concat(a, seq![p] + b, q);
                lemma_with_id_concat(seq![p], b, q);
                lemma_with_id_concat(a, b, q);
                assert(with_id(orig, q) == with_id(before_out, q) + with_id(before_rest, q));
                if p.id_view() == q {
                    assert forall|i: int| 0 <= i < a.len() implies (#[trigger] a[i]).id_view() != q by {
                        assert(a[i] == before_rest[i]);
                    }
                    lemma_with_id_absent(a, q);
                }
                assert(out@.last() == p);
                assert(seq![p].last() == p);
                assert(with_id(seq![p].drop_last(), q) =~= Seq::<T>::empty());
                if p.id_view() == q {
                    assert(with_id(seq![p], q) =~= seq![p]);
                    assert(with_id(out@, q) == with_id(before_out, q).push(p));
                } else {
                    assert(with_id(seq![p], q) =~= Seq::<T>::empty());
                    assert(with_id(out@, q) == with_id(before_out, q));
                }
                assert(with_id(orig, q) =~= with_id(out@, q) + with_id(rest@, q));
            }
            assert forall|i: int, j: int|
                0 <= i < out@.len() && 0 <= j < rest@.len() implies lex_le(
                #[trigger] out@[i].id_view(),
                #[trigger] rest@[j].id_view(),
            ) by {
                let jj = if j < k {
                    j
                } else {
                    j + 1
                };
                assert(rest@[j] == before_rest[jj]);
                if i < before_out.len() {
                    assert(out@[i] == before_out[i]);
                }
            }
            assert forall|i: int, j: int| 0 <= i < j < out@.len() implies lex_le(
                #[trigger] out@[i].id_view(),
                #[trigger] out@[j].id_view(),
            ) by {
                if j < before_out.len() {
                    assert(out@[i] == before_out[i] && out@[j] == before_out[j]);
                } else {
                    assert(out@[i] == before_out[i]);
                    assert(out@[j] == before_rest[k as int]);
                }
            }
        }
    }
    proof {
        assert(rest@.to_multiset() =~= Multiset::<T>::empty());
        assert(out@.to_multiset().add(rest@.to_multiset()) =~= out@.to_multiset());
        assert forall|q: Seq<char>| #[trigger] with_id(out@, q) == with_id(orig, q) by {
            assert(with_id(rest@, q) =~= Seq::<T>::empty());
            assert(with_id(out@, q) + with_id(rest@, q) =~= with_id(out@, q));
        }
    }
    out
}

/// Whether legacy lights are in order of their numbers.
pub open spec fn sorted_by_number(s: Seq<IdentifiedLight>) -> bool {
    forall|i: int, j: int| 0 <= i < j < s.len() ==> #[trigger] s[i].id <= #[trigger] s[j].id
}

fn index_of_lowest(items: &Vec<IdentifiedLight>) -> (r: usize)
    requires
        items@.len() > 0,
    ensures
        r < items@.len(),
        forall|j: int| 0 <= j < items@.len() ==> items@[r as int].id <= #[trigger] items@[j].id,
        forall|j: int| 0 <= j < r ==> (#[trigger] items@[j]).id != items@[r as int].id,
{
    let mut best: usize = 0;
    let mut k: usize = 1;
    while k < items.len()
        invariant
            best < k <= items@.len(),
            forall|j: int| 0 <= j < k ==> items@[best as int].id <= #[trigger] items@[j].id,
            forall|j: int| 0 <= j < best ==> (#[trigger] items@[j]).id != items@[best as int].id,
        decreases items@.len() - k,
    {
        if items[k].id < items[best].id {
            best = k;
        }
        k = k + 1;
    }
    best
}

/// Legacy lights in order of their numbers: the same lights, each as often as before, and
/// lights with equal numbers in the order they came in.
pub fn sort_by_number(items: Vec<IdentifiedLight>) -> (r: Vec<IdentifiedLight>)
    ensures
        sorted_by_number(r@),
        r@.to_multiset() == items@.to_multiset(),
        forall|n: usize| #[trigger] with_number(r@, n) == with_number(items@, n),
{
    broadcast use vstd::seq_lib::group_to_multiset_ensures;
    broadcast use vstd::multiset::group_multiset_axioms;

    let ghost orig = items@;
    let mut rest = items;
    let mut out: Vec<IdentifiedLight> = Vec::new();
    proof {
        assert(out@.to_multiset() =~= Multiset::<IdentifiedLight>::empty());
        assert(out@.to_multiset().add(rest@.to_multiset()) =~= orig.to_multiset());
        assert forall|q: usize| #[trigger] with_number(orig, q) == with_number(out@, q) + with_number(rest@, q) by {
            assert(with_number(out@, q) =~= Seq::<IdentifiedLight>::empty());
            assert(with_number(out@, q) + with_number(rest@, q) =~= with_number(rest@, q));
        }
    }
    while rest.len() > 0
        invariant
            sorted_by_number(out@),
            forall|i: int, j: int|
                0 <= i < out@.len() && 0 <= j < rest@.len() ==> #[trigger] out@[i].id
                    <= #[trigger] rest@[j].id,
            out@.to_multiset().add(rest@.to_multiset()) == orig.to_multiset(),
            forall|q: usize| #[trigger] with_number(orig, q) == with_number(out@, q) + with_number(rest@, q),
        decreases rest@.len(),
    {
        let k = index_of_lowest(&rest);
        let ghost before_rest = rest@;
        let ghost before_out = out@;
        let item = rest.remove(k);
        out.push(item);
        proof {
            let p = before_rest[k as int];
            assert(before_rest.contains(p));
            vstd::seq_lib::to_multiset_contains(before_rest, p);
            vstd::seq_lib::to_multiset_remove(before_rest, k as int);
            vstd::seq_lib::to_multiset_build(before_out, p);
            assert(rest@ == before_rest.remove(k as int));
            assert(out@ == before_out.push(p));
            assert(out@.to_multiset().add(rest@.to_multiset()) =~= orig.to_multiset());
            let a = before_rest.subrange(0, k as int);
            let b = before_rest.subrange(k + 1, before_rest.len() as int);
            assert(before_rest =~= a + (seq![p] + b));
            assert(rest@ =~= a + b);
            assert(out@.drop_last() =~= before_out);
            assert(seq![p].drop_last() =~= Seq::<IdentifiedLight>::empty());
            assert forall|q: usize| #[trigger] with_number(orig, q) == with_number(out@, q) + with_number(rest@, q) by {
                lemma_with_number_concat(a, seq![p] + b, q);
                lemma_with_number_concat(seq![p], b, q);
                lemma_with_number_concat(a, b, q);
                assert(with_number(orig, q) == with_number(before_out, q) + with_number(before_rest, q));
                if p.id == q {
                    assert forall|i: int| 0 <= i < a.len() implies (#[trigger] a[i]).id != q by {
                        assert(a[i] == before_rest[i]);
                    }
                    lemma_with_number_absent(a, q);
                }
                assert(out@.last() == p);
                assert(seq![p].last() == p);
                assert(with_number(seq![p].drop_last(), q) =~= Seq::<IdentifiedLight>::empty());
                if p.id == q {
                    assert(with_number(seq![p], q) =~= seq![p]);
                    assert(with_number(out@, q) == with_number(before_out, q).push(p));
                } else {
                    assert(with_number(seq![p], q) =~= Seq::<IdentifiedLight>::empty());
                    assert(with_number(out@, q) == with_number(before_out, q));
                }
                assert(with_number(orig, q) =~= with_number(out@, q) + with_number(rest@, q));
            }
            assert forall|i: int, j: int|
                0 <= i < out@.len() && 0 <= j < rest@.len() implies #[trigger] out@[i].id
                <= #[trigger] rest@[j].id by {
                let jj = if j < k {
                    j
                } else {
                    j + 1
                };
                assert(rest@[j] == before_rest[jj]);
                if i < before_out.len() {
                    assert(out@[i] == before_out[i]);
                }
            }
            assert forall|i: int, j: int| 0 <= i < j < out@.len() implies #[trigger] out@[i].id
                <= #[trigger] out@[j].id by {
                if j < before_out.len() {
                    assert(out@[i] == before_out[i] && out@[j] == before_out[j]);
                } else {
                    assert(out@[i] == before_out[i]);
                    assert(out@[j] == before_rest[k as int]);
                }
            }
        }
    }
    proof {
        assert(rest@.to_multiset() =~= Multiset::<IdentifiedLight>::empty());
        assert(out@.to_multiset().add(rest@.to_multiset()) =~= out@.to_multiset());
        assert forall|q: usize| #[trigger] with_number(out@, q) == with_number(orig, q) by {
            assert(with_number(rest@, q) =~= Seq::<IdentifiedLight>::empty());
            assert(with_number(out@, q) + with_number(rest@, q) =~= with_number(out@, q));
        }
    }
    out
}

} // verus!
