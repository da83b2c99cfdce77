//! Nearest-hit selection over the objects of a world.
//!
//! Each object of the world is tested against the ray over the same interval
//! `[t_min, t_max]`; its outcome is `None` (no hit) or the hit's ray parameter
//! `t` as an order key: a larger key is a hit farther along the ray. The world
//! reports the hit with the smallest key; among hits with equal keys the one
//! of the object listed first.
use vstd::prelude::*;

verus! {

/// The entry at `i` is the hit that the world reports among `hits`.
pub open spec fn is_closest(hits: Seq<Option<u64>>, i: int) -> bool {
    &&& 0 <= i < hits.len()
    &&& hits[i] is Some
    &&& forall|j: int|
        0 <= j < hits.len() && hits[j] is Some ==> hits[i]->0 <= #[trigger] hits[j]->0
    &&& forall|j: int| 0 <= j < i && hits[j] is Some ==> hits[i]->0 < #[trigger] hits[j]->0
}

/// No object was hit.
pub open spec fn all_missed(hits: Seq<Option<u64>>) -> bool {
    forall|j: int| 0 <= j < hits.len() ==> #[trigger] hits[j] is None
}

/// `s` with the entries at `i` and `j` exchanged.
pub open spec fn swapped(s: Seq<Option<u64>>, i: int, j: int) -> Seq<Option<u64>> {
    s.update(i, s[j]).update(j, s[i])
}

/// Picks, among the objects' hits, the nearest one along the ray, keeping the
/// first listed where several are equally near. `None` when nothing was hit.
pub fn closest(hits: &Vec<Option<u64>>) -> (r: Option<usize>)
    ensures
        r is None <==> all_missed(hits@),
        r matches Some(i) ==> is_closest(hits@, i as int),
{
    let mut best: Option<usize> = None;
    let mut best_key: u64 = 0;
    let mut i: usize = 0;
    while i < hits.len()
        invariant
            i <= hits.len(),
            best is None <==> forall|j: int| 0 <= j < i ==> #[trigger] hits@[j] is None,
            best matches Some(b) ==> {
                &&& b < i
                &&& hits@[b as int] == Some(best_key)
                &&& forall|j: int|
                    0 <= j < i && hits@[j] is Some ==> best_key <= #[trigger] hits@[j]->0
                &&& forall|j: int| 0 <= j < b && hits@[j] is Some ==> best_key < #[trigger] hits@[j]->0
            },
        decreases hits.len() - i,
    {
        if let Some(key) = hits[i] {
            let nearer = match best {
                None => true,
                Some(_) => key < best_key,
            };
            if nearer {
                best = Some(i);
                best_key = key;
            }
        }
        i = i + 1;
    }
    best
}

/// The nearest hit does not depend on the order in which the objects are
/// listed: after two objects exchange places, the hit reported is just as
/// near as before.
pub proof fn closest_ignores_order(hits: Seq<Option<u64>>, i: int, j: int, a: int, b: int)
    requires
        0 <= i < hits.len(),
        0 <= j < hits.len(),
        is_closest(hits, a),
        is_closest(swapped(hits, i, j), b),
    ensures
        swapped(hits, i, j)[b] == hits[a],
{
    let s = swapped(hits, i, j);
    // Where each entry of `s` came from in `hits`, and back.
    let from_b = if b == j { i } else if b == i { j } else { b };
    let to_a = if a == i { j } else if a == j { i } else { a };
    assert(hits[from_b] == s[b]);
    assert(s[to_a] == hits[a]);
    assert(hits[a]->0 <= hits[from_b]->0);
    assert(s[b]->0 <= s[to_a]->0);
}

} // verus!
