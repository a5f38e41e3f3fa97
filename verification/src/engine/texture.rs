//! Texture batches: the order in which a batch of texture draws is carried out.
use vstd::prelude::*;

verus! {

/// Whether the batch entry `a` is drawn before the entry `b`: a lower z-index first, then a
/// lower texture identifier, and entries with equal keys in the order they were given.
pub open spec fn draws_before(keys: Seq<(u32, u32)>, a: int, b: int) -> bool {
    ||| keys[a].0 < keys[b].0
    ||| (keys[a].0 == keys[b].0 && keys[a].1 < keys[b].1)
    ||| (keys[a].0 == keys[b].0 && keys[a].1 == keys[b].1 && a < b)
}

/// Whether `order` lists every entry of a batch with `keys` once, in drawing order.
pub open spec fn is_draw_order(keys: Seq<(u32, u32)>, order: Seq<usize>) -> bool {
    &&& order.len() == keys.len()
    &&& forall|k: int| 0 <= k < order.len() ==> #[trigger] order[k] < keys.len()
    &&& forall|j: int| 0 <= j < keys.len() ==> #[trigger] order.contains(j as usize)
    &&& forall|k1: int, k2: int|
        0 <= k1 < k2 < order.len() ==> draws_before(keys, #[trigger] order[k1] as int, #[trigger] order[k2] as int)
}

proof fn lemma_draws_before_total(keys: Seq<(u32, u32)>, a: int, b: int)
    requires
        a != b,
    ensures
        draws_before(keys, a, b) || draws_before(keys, b, a),
{
}

proof fn lemma_draws_before_transitive(keys: Seq<(u32, u32)>, a: int, b: int, c: int)
    requires
        draws_before(keys, a, b),
        draws_before(keys, b, c),
    ensures
        draws_before(keys, a, c),
{
}

/// Whether an entry with key `a` comes no later than one with key `b`, given equal keys.
fn key_not_after(a: (u32, u32), b: (u32, u32)) -> (r: bool)
    ensures
        r == (a.0 < b.0 || (a.0 == b.0 && a.1 <= b.1)),
{
    a.0 < b.0 || (a.0 == b.0 && a.1 <= b.1)
}

/// The order in which a batch of texture draws is carried out, given each entry's z-index
/// and texture identifier: sorted by z-index, then by identifier, equal keys kept in the order
/// they were given.
pub fn draw_order(keys: &Vec<(u32, u32)>) -> (order: Vec<usize>)
    ensures
        is_draw_order(keys@, order@),
{
    let n = keys.len();
    let mut order: Vec<usize> = Vec::new();
    let mut i: usize = 0;
    while i < n
        invariant
            n == keys@.len(),
            i <= n,
            order@.len() == i,
            forall|k: int| 0 <= k < order@.len() ==> #[trigger] order@[k] < i,
            forall|j: int| 0 <= j < i ==> #[trigger] order@.contains(j as usize),
            forall|k1: int, k2: int|
                0 <= k1 < k2 < order@.len() ==> draws_before(
                    keys@,
                    #[trigger] order@[k1] as int,
                    #[trigger] order@[k2] as int,
                ),
        decreases n - i,
    {
        let (index_i, identifier_i) = keys[i];
        let mut p: usize = 0;
        while p < order.len() && key_not_after(keys[order[p]], (index_i, identifier_i))
            invariant
                n == keys@.len(),
                i < n,
                p <= order@.len(),
                order@.len() == i,
                keys@[i as int] == (index_i, identifier_i),
                forall|k: int| 0 <= k < order@.len() ==> #[trigger] order@[k] < i,
                forall|k: int| 0 <= k < p ==> draws_before(keys@, #[trigger] order@[k] as int, i as int),
            decreases order@.len() - p,
        {
            p = p + 1;
        }
        proof {
            if p < order@.len() {
                let e = order@[p as int] as int;
                assert(!draws_before(keys@, e, i as int));
                lemma_draws_before_total(keys@, e, i as int);
                assert forall|k: int| p <= k < order@.len() implies draws_before(
                    keys@,
                    i as int,
                    #[trigger] order@[k] as int,
                ) by {
                    if k > p {
                        lemma_draws_before_transitive(keys@, i as int, e, order@[k] as int);
                    }
                }
            }
        }
        let ghost before = order@;
        order.insert(p, i);
        proof {
            assert(order@[p as int] == i);
            assert forall|j: int| 0 <= j < i + 1 implies #[trigger] order@.contains(j as usize) by {
                if j == i {
                    assert(order@[p as int] == j as usize);
                } else {
                    assert(before.contains(j as usize));
                    let k = choose|k: int| 0 <= k < before.len() && before[k] == j as usize;
                    if k < p {
                        assert(order@[k] == j as usize);
                    } else {
                        assert(order@[k + 1] == j as usize);
                    }
                }
            }
            assert forall|k1: int, k2: int|
                0 <= k1 < k2 < order@.len() implies draws_before(
                keys@,
                #[trigger] order@[k1] as int,
                #[trigger] order@[k2] as int,
            ) by {
                if k1 < p && k2 < p {
                    assert(order@[k1] == before[k1] && order@[k2] == before[k2]);
                } else if k1 < p && k2 == p {
                } else if k1 < p && k2 > p {
                    assert(order@[k2] == before[k2 - 1]);
                    lemma_draws_before_transitive(keys@, order@[k1] as int, i as int, order@[k2] as int);
                } else if k1 == p {
                    assert(order@[k2] == before[k2 - 1]);
                } else {
                    assert(order@[k1] == before[k1 - 1] && order@[k2] == before[k2 - 1]);
                }
            }
        }
        i = i + 1;
    }
    order
}

/// The draw order of a batch is unique: two orders that both list every entry once in
/// drawing order are the same.
pub proof fn lemma_draw_order_unique(keys: Seq<(u32, u32)>, o1: Seq<usize>, o2: Seq<usize>)
    requires
        is_draw_order(keys, o1),
        is_draw_order(keys, o2),
    ensures
        o1 == o2,
{
    assert forall|k: int| 0 <= k < o1.len() implies o1[k] == o2[k] by {
        lemma_same_at(keys, o1, o2, k);
    }
    assert(o1 =~= o2);
}

proof fn lemma_same_at(keys: Seq<(u32, u32)>, o1: Seq<usize>, o2: Seq<usize>, k: int)
    requires
        is_draw_order(keys, o1),
        is_draw_order(keys, o2),
        0 <= k < o1.len(),
    ensures
        o1[k] == o2[k],
    decreases k,
{
    assert forall|j: int| 0 <= j < k implies o1[j] == o2[j] by {
        lemma_same_at(keys, o1, o2, j);
    }
    let a = o1[k];
    let b = o2[k];
    if a != b {
        lemma_draws_before_total(keys, a as int, b as int);
        if draws_before(keys, a as int, b as int) {
            let ai: int = a as int;
            assert(0 <= ai < keys.len());
            assert(o2.contains(ai as usize));
            let j = choose|j: int| 0 <= j < o2.len() && o2[j] == a;
            if j < k {
                assert(o1[j] == a);
                assert(draws_before(keys, o1[j] as int, o1[k] as int));
            } else {
                assert(j > k);
                assert(draws_before(keys, o2[k] as int, o2[j] as int));
            }
        } else {
            let bi: int = b as int;
            assert(0 <= bi < keys.len());
            assert(o1.contains(bi as usize));
            let j = choose|j: int| 0 <= j < o1.len() && o1[j] == b;
            if j < k {
                assert(o2[j] == b);
                assert(draws_before(keys, o2[j] as int, o2[k] as int));
            } else {
                assert(j > k);
                assert(draws_before(keys, o1[k] as int, o1[j] as int));
            }
        }
    }
}

/// A draw order lists every entry once and draws lower z-indices first, then lower texture
/// identifiers, and entries with equal keys in the order they were given.
pub proof fn lemma_draw_order_sorted(keys: Seq<(u32, u32)>, order: Seq<usize>)
    requires
        is_draw_order(keys, order),
    ensures
        forall|p: int, q: int|
            #![trigger order[p], order[q]]
            0 <= p < q < order.len() ==> {
                let a = keys[order[p] as int];
                let b = keys[order[q] as int];
                &&& a.0 <= b.0
                &&& a.0 == b.0 ==> a.1 <= b.1
                &&& a == b ==> order[p] < order[q]
            },
        forall|p: int, q: int| #![trigger order[p], order[q]] 0 <= p < q < order.len() ==> order[p] != order[q],
{
    assert forall|p: int, q: int| 0 <= p < q < order.len() implies order[p] != order[q] by {
        assert(draws_before(keys, order[p] as int, order[q] as int));
    }
}

} // verus!
