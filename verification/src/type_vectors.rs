//! Vectors of value types in their order, and lists of them that are
//! sorted and hold nothing twice.

use crate::ast::{clone_types, ValType};
use crate::hooks::same_types;
use vstd::prelude::*;

verus! {

/// `a` comes before `b` from the position `i` on, both being equal before
/// `i`.
pub open spec fn lex_less_from(a: Seq<ValType>, b: Seq<ValType>, i: int) -> bool
    decreases a.len() - i,
{
    if i >= b.len() {
        false
    } else if i >= a.len() {
        true
    } else if a[i] != b[i] {
        a[i].rank() < b[i].rank()
    } else {
        lex_less_from(a, b, i + 1)
    }
}

/// The lexicographic order of type vectors: the first position at which
/// two vectors differ decides, by the order `i32 < i64 < f32 < f64`, and a
/// vector comes after its proper prefixes.
pub open spec fn lex_less(a: Seq<ValType>, b: Seq<ValType>) -> bool {
    lex_less_from(a, b, 0)
}

fn rank_of(ty: ValType) -> (r: u8)
    ensures
        r == ty.rank(),
{
    match ty {
        ValType::I32 => 0,
        ValType::I64 => 1,
        ValType::F32 => 2,
        ValType::F64 => 3,
    }
}

/// Whether `a` comes before `b`.
pub fn types_less(a: &[ValType], b: &[ValType]) -> (r: bool)
    ensures
        r == lex_less(a@, b@),
{
    let mut i: usize = 0;
    while i < a.len() && i < b.len()
        invariant
            i <= a.len(),
            i <= b.len(),
            lex_less(a@, b@) == lex_less_from(a@, b@, i as int),
        decreases a.len() - i,
    {
        if a[i] != b[i] {
            return rank_of(a[i]) < rank_of(b[i]);
        }
        i += 1;
    }
    i < b.len()
}

/// The sorted list `v` with `x` in its place, if `v` does not hold `x`.
pub open spec fn inserted(v: Seq<Seq<ValType>>, x: Seq<ValType>) -> Seq<Seq<ValType>>
    decreases v.len(),
{
    if v.len() == 0 {
        seq![x]
    } else if v.last() == x {
        v
    } else if lex_less(v.last(), x) {
        v.push(x)
    } else {
        inserted(v.drop_last(), x).push(v.last())
    }
}

/// The type vectors of `items` in lexicographic order, each once.
pub open spec fn sorted_unique(items: Seq<Seq<ValType>>) -> Seq<Seq<ValType>>
    decreases items.len(),
{
    if items.len() == 0 {
        seq![]
    } else {
        inserted(sorted_unique(items.drop_last()), items.last())
    }
}

/// The contents of the vectors.
pub open spec fn type_views(v: Seq<Vec<ValType>>) -> Seq<Seq<ValType>> {
    v.map_values(|tys: Vec<ValType>| tys@)
}

/// Puts `x` in its place in the sorted list `v`, unless `v` holds it.
pub fn insert_sorted(v: &mut Vec<Vec<ValType>>, x: &Vec<ValType>)
    ensures
        type_views(final(v)@) == inserted(type_views(old(v)@), x@),
{
    let ghost before = type_views(v@);
    let mut k: usize = v.len();
    assert(before.take(k as int) =~= before);
    assert(before.skip(k as int) =~= Seq::<Seq<ValType>>::empty());
    let mut placed = false;
    while k > 0 && !placed
        invariant
            k <= v.len(),
            before == type_views(v@),
            v@ == old(v)@,
            inserted(before, x@) == inserted(before.take(k as int), x@) + before.skip(k as int),
            placed ==> k > 0 && before[k - 1] != x@ && lex_less(before[k - 1], x@),
        decreases k + if placed { 0int } else { 1int },
    {
        let last = &v[k - 1];
        assert(before.take(k as int).last() == last@);
        if same_types(last.as_slice(), x.as_slice()) {
            assert(before.take(k as int) + before.skip(k as int) =~= before);
            return ;
        }
        if types_less(last.as_slice(), x.as_slice()) {
            placed = true;
        } else {
            proof {
                assert(before.take(k as int).drop_last() =~= before.take(k - 1));
                assert(inserted(before.take(k - 1), x@).push(last@) + before.skip(k as int)
                    =~= inserted(before.take(k - 1), x@) + before.skip(k - 1));
            }
            k -= 1;
        }
    }
    v.insert(k, clone_types(x));
    proof {
        if k == 0 {
            assert(before.take(0) =~= Seq::<Seq<ValType>>::empty());
        } else {
            assert(before.take(k as int).last() == before[k - 1]);
        }
        assert(inserted(before.take(k as int), x@) =~= before.take(k as int).push(x@));
        assert(type_views(v@) =~= inserted(before.take(k as int), x@) + before.skip(k as int));
    }
}

/// No type vector comes before itself.
pub proof fn lemma_lex_irreflexive(a: Seq<ValType>, i: int)
    requires
        0 <= i,
    ensures
        !lex_less_from(a, a, i),
    decreases a.len() - i,
{
    if i < a.len() {
        lemma_lex_irreflexive(a, i + 1);
    }
}

/// Of two different type vectors one comes before the other.
pub proof fn lemma_lex_total(a: Seq<ValType>, b: Seq<ValType>, i: int)
    requires
        0 <= i <= a.len(),
        i <= b.len(),
        forall|k: int| 0 <= k < i ==> a[k] == b[k],
        a != b,
    ensures
        lex_less_from(a, b, i) || lex_less_from(b, a, i),
    decreases a.len() - i,
{
    if i == a.len() {
        if i == b.len() {
            assert(a =~= b);
        }
    } else if i < b.len() && a[i] == b[i] {
        lemma_lex_total(a, b, i + 1);
    }
}

/// What comes before a type vector comes before what the vector comes
/// before.
pub proof fn lemma_lex_transitive(a: Seq<ValType>, b: Seq<ValType>, c: Seq<ValType>, i: int)
    requires
        0 <= i,
        lex_less_from(a, b, i),
        lex_less_from(b, c, i),
    ensures
        lex_less_from(a, c, i),
    decreases a.len() - i,
{
    if i < a.len() && i < b.len() && i < c.len() && a[i] == b[i] && b[i] == c[i] {
        lemma_lex_transitive(a, b, c, i + 1);
    }
}

/// Every vector of the list comes before those that follow it.
pub open spec fn strictly_sorted(v: Seq<Seq<ValType>>) -> bool {
    forall|i: int, j: int| 0 <= i < j < v.len() ==> lex_less(#[trigger] v[i], #[trigger] v[j])
}

/// A sorted list with a vector put in its place is sorted, and holds the
/// vector and what the list held.
pub proof fn lemma_inserted(v: Seq<Seq<ValType>>, x: Seq<ValType>)
    requires
        strictly_sorted(v),
    ensures
        strictly_sorted(inserted(v, x)),
        forall|y: Seq<ValType>| inserted(v, x).contains(y) <==> v.contains(y) || y == x,
    decreases v.len(),
{
    let r = inserted(v, x);
    if v.len() == 0 {
        assert(r[0] == x);
        assert forall|y: Seq<ValType>| r.contains(y) <==> v.contains(y) || y == x by {
            if y == x {
                assert(r[0] == y);
            }
        }
    } else if v.last() == x {
        assert(v[v.len() - 1] == x);
    } else if lex_less(v.last(), x) {
        assert forall|i: int, j: int| 0 <= i < j < r.len() implies lex_less(
            #[trigger] r[i],
            #[trigger] r[j],
        ) by {
            if j < v.len() {
                assert(lex_less(v[i], v[j]));
            } else if i < v.len() - 1 {
                assert(lex_less(v[i], v[v.len() - 1]));
                lemma_lex_transitive(v[i], v.last(), x, 0);
            }
        }
        assert forall|y: Seq<ValType>| r.contains(y) <==> v.contains(y) || y == x by {
            if r.contains(y) {
                let k = choose|k: int| 0 <= k < r.len() && r[k] == y;
                if k < v.len() {
                    assert(v[k] == y);
                }
            }
            if v.contains(y) {
                let k = choose|k: int| 0 <= k < v.len() && v[k] == y;
                assert(r[k] == y);
            }
            if y == x {
                assert(r[r.len() - 1] == y);
            }
        }
    } else {
        let rest = v.drop_last();
        let last = v.last();
        assert forall|i: int, j: int| 0 <= i < j < rest.len() implies lex_less(
            #[trigger] rest[i],
            #[trigger] rest[j],
        ) by {
            assert(lex_less(v[i], v[j]));
        }
        lemma_inserted(rest, x);
        let inner = inserted(rest, x);
        lemma_lex_total(last, x, 0);
        assert(lex_less(x, last));
        assert forall|i: int, j: int| 0 <= i < j < r.len() implies lex_less(
            #[trigger] r[i],
            #[trigger] r[j],
        ) by {
            if j < inner.len() {
                assert(lex_less(inner[i], inner[j]));
            } else {
                assert(inner.contains(inner[i]));
                if inner[i] != x {
                    assert(rest.contains(inner[i]));
                    let k = choose|k: int| 0 <= k < rest.len() && rest[k] == inner[i];
                    assert(lex_less(v[k], v[v.len() - 1]));
                }
            }
        }
        assert forall|y: Seq<ValType>| r.contains(y) <==> v.contains(y) || y == x by {
            if r.contains(y) {
                let k = choose|k: int| 0 <= k < r.len() && r[k] == y;
                if k < inner.len() {
                    assert(r[k] == inner[k]);
                    assert(inner.contains(y));
                    if y != x {
                        assert(rest.contains(y));
                        let at = choose|at: int| 0 <= at < rest.len() && rest[at] == y;
                        assert(v[at] == y);
                    }
                } else {
                    assert(v[v.len() - 1] == y);
                }
            }
            if v.contains(y) {
                let k = choose|k: int| 0 <= k < v.len() && v[k] == y;
                if k < rest.len() {
                    assert(rest[k] == y);
                    assert(rest.contains(y));
                    assert(inner.contains(y));
                    let at = choose|at: int| 0 <= at < inner.len() && inner[at] == y;
                    assert(r[at] == y);
                } else {
                    assert(r[r.len() - 1] == y);
                }
            }
            if y == x {
                assert(inner.contains(x));
                let at = choose|at: int| 0 <= at < inner.len() && inner[at] == x;
                assert(r[at] == y);
            }
        }
    }
}

/// The sorted list of the type vectors of `items` holds the vectors of
/// `items` and no others, each before those that come after it in the
/// order: so it holds none twice, and is the only such list.
pub proof fn lemma_sorted_unique(items: Seq<Seq<ValType>>)
    ensures
        strictly_sorted(sorted_unique(items)),
        forall|y: Seq<ValType>| sorted_unique(items).contains(y) <==> items.contains(y),
        forall|i: int, j: int|
            0 <= i < j < sorted_unique(items).len() ==> sorted_unique(items)[i] != sorted_unique(
                items,
            )[j],
    decreases items.len(),
{
    let r = sorted_unique(items);
    if items.len() > 0 {
        let rest = items.drop_last();
        lemma_sorted_unique(rest);
        lemma_inserted(sorted_unique(rest), items.last());
        assert forall|y: Seq<ValType>| r.contains(y) <==> items.contains(y) by {
            if items.contains(y) {
                let k = choose|k: int| 0 <= k < items.len() && items[k] == y;
                if k < rest.len() {
                    assert(rest[k] == y);
                }
            }
            if rest.contains(y) {
                let k = choose|k: int| 0 <= k < rest.len() && rest[k] == y;
                assert(items[k] == y);
            }
            if y == items.last() {
                assert(items[items.len() - 1] == y);
            }
        }
    }
    assert forall|i: int, j: int| 0 <= i < j < r.len() implies r[i] != r[j] by {
        assert(lex_less(r[i], r[j]));
        lemma_lex_irreflexive(r[i], 0);
    }
}

} // verus!
