//! Choosing among things by how far away they are.
//!
//! Distances reach this library as order keys: the bit pattern of the `f32`
//! distance (`f32::to_bits`). Distances are never negative, and for floats that
//! are not negative the bit patterns are ordered as the numbers are; a NaN
//! distance has a key above that of every number, so it is never within a
//! finite range, just as a comparison with NaN is never true.
use vstd::prelude::*;

verus! {

/// Some key in `keys` is at most `limit`.
pub open spec fn any_within(keys: Seq<u32>, limit: u32) -> bool {
    exists|j: int| 0 <= j < keys.len() && keys[j] <= limit
}

/// `i` is the first index among those whose key is at most `limit` whose key
/// is the least of them: every key within the limit is at least `keys[i]`, and
/// every one before `i` is greater.
pub open spec fn is_nearest_within(keys: Seq<u32>, limit: u32, i: int) -> bool {
    &&& 0 <= i < keys.len()
    &&& keys[i] <= limit
    &&& forall|j: int| 0 <= j < keys.len() && keys[j] <= limit ==> keys[i] <= #[trigger] keys[j]
    &&& forall|j: int| 0 <= j < i && keys[j] <= limit ==> keys[i] < #[trigger] keys[j]
}

/// The nearest thing within `limit`, the first of them where several are
/// equally near; `None` when nothing is within `limit`.
pub fn nearest_within(keys: &[u32], limit: u32) -> (r: Option<usize>)
    ensures
        r is None <==> !any_within(keys@, limit),
        r matches Some(i) ==> is_nearest_within(keys@, limit, i as int),
{
    let mut best: Option<usize> = None;
    let mut k: usize = 0;
    while k < keys.len()
        invariant
            k <= keys.len(),
            best is None <==> !(exists|j: int| 0 <= j < k && keys@[j] <= limit),
            best matches Some(i) ==> {
                &&& i < k
                &&& keys@[i as int] <= limit
                &&& forall|j: int| 0 <= j < k && keys@[j] <= limit ==> keys@[i as int] <= #[trigger] keys@[j]
                &&& forall|j: int| 0 <= j < i && keys@[j] <= limit ==> keys@[i as int] < #[trigger] keys@[j]
            },
        decreases keys.len() - k,
    {
        if keys[k] <= limit {
            match best {
                None => {
                    best = Some(k);
                },
                Some(i) => {
                    if keys[k] < keys[i] {
                        best = Some(k);
                    }
                },
            }
        }
        k = k + 1;
    }
    best
}

/// The nearest thing of all, the first of them where several are equally
/// near; `None` when there is nothing.
pub fn nearest(keys: &[u32]) -> (r: Option<usize>)
    ensures
        r is None <==> keys@.len() == 0,
        r matches Some(i) ==> is_nearest_within(keys@, u32::MAX, i as int),
{
    let r = nearest_within(keys, u32::MAX);
    proof {
        if keys@.len() > 0 {
            assert(keys@[0] <= u32::MAX);
        }
    }
    r
}

/// `i` is the first index whose key is below `limit`.
pub open spec fn is_first_below(keys: Seq<u32>, limit: u32, i: int) -> bool {
    &&& 0 <= i < keys.len()
    &&& keys[i] < limit
    &&& forall|j: int| 0 <= j < i ==> #[trigger] keys[j] >= limit
}

/// The first thing strictly closer than `limit`; `None` when there is none.
pub fn first_below(keys: &[u32], limit: u32) -> (r: Option<usize>)
    ensures
        r is None <==> (forall|j: int| 0 <= j < keys@.len() ==> #[trigger] keys@[j] >= limit),
        r matches Some(i) ==> is_first_below(keys@, limit, i as int),
{
    let mut k: usize = 0;
    while k < keys.len()
        invariant
            k <= keys.len(),
            forall|j: int| 0 <= j < k ==> #[trigger] keys@[j] >= limit,
        decreases keys.len() - k,
    {
        if keys[k] < limit {
            return Some(k);
        }
        k = k + 1;
    }
    None
}

/// `idx` lists, in increasing order, exactly the indices of `keys` whose key is
/// at most `limit`.
pub open spec fn lists_all_within(keys: Seq<u32>, limit: u32, idx: Seq<usize>) -> bool {
    &&& forall|k: int| 0 <= k < idx.len() ==> #[trigger] idx[k] < keys.len() && keys[idx[k] as int] <= limit
    &&& forall|k1: int, k2: int| 0 <= k1 < k2 < idx.len() ==> #[trigger] idx[k1] < #[trigger] idx[k2]
    &&& forall|j: int| 0 <= j < keys.len() && #[trigger] keys[j] <= limit ==> idx.contains(j as usize)
}

/// Every thing within `limit`, in the order given.
pub fn all_within(keys: &[u32], limit: u32) -> (r: Vec<usize>)
    ensures
        lists_all_within(keys@, limit, r@),
{
    let mut r: Vec<usize> = Vec::new();
    let mut k: usize = 0;
    while k < keys.len()
        invariant
            k <= keys.len(),
            forall|m: int| 0 <= m < r@.len() ==> #[trigger] r@[m] < k && keys@[r@[m] as int] <= limit,
            forall|m1: int, m2: int| 0 <= m1 < m2 < r@.len() ==> #[trigger] r@[m1] < #[trigger] r@[m2],
            forall|j: int| 0 <= j < k && #[trigger] keys@[j] <= limit ==> r@.contains(j as usize),
        decreases keys.len() - k,
    {
        if keys[k] <= limit {
            let ghost before = r@;
            r.push(k);
            proof {
                assert forall|j: int| 0 <= j < k + 1 && #[trigger] keys@[j] <= limit implies r@.contains(j as usize) by {
                    if j < k {
                        let m = choose|m: int| 0 <= m < before.len() && before[m] == j as usize;
                        assert(r@[m] == j as usize);
                    } else {
                        assert(r@[before.len() as int] == j as usize);
                    }
                }
            }
        }
        k = k + 1;
    }
    r
}

} // verus!
