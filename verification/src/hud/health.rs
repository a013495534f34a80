//! Health hearts: one lit heart per hit point.
use vstd::prelude::*;

verus! {

/// The display shows ten hearts.
pub const HEART_COUNT: i32 = 10;

/// Heart `index` (counting from zero) is lit while the player has more than
/// `index` hit points; otherwise it is greyed out.
pub fn heart_lit(index: i32, current: i32) -> (lit: bool)
    ensures
        lit == (index < current),
{
    index < current
}

/// Which hearts are lit: heart `indices[k]` is lit exactly when
/// `heart_lit(indices[k], current)`.
pub fn update_hearts(indices: &[i32], current: i32) -> (lit: Vec<bool>)
    ensures
        lit@.len() == indices@.len(),
        forall|k: int| 0 <= k < indices@.len() ==> #[trigger] lit@[k] == (indices@[k] < current),
{
    let mut lit: Vec<bool> = Vec::new();
    let mut k: usize = 0;
    while k < indices.len()
        invariant
            k <= indices@.len(),
            lit@.len() == k,
            forall|m: int| 0 <= m < k ==> #[trigger] lit@[m] == (indices@[m] < current),
        decreases indices@.len() - k,
    {
        lit.push(heart_lit(indices[k], current));
        k = k + 1;
    }
    lit
}

/// How many of the hearts `0 .. n` are lit with `current` hit points.
pub open spec fn lit_hearts(n: nat, current: int) -> nat
    decreases n,
{
    if n == 0 {
        0
    } else {
        lit_hearts((n - 1) as nat, current) + (if n - 1 < current { 1nat } else { 0nat })
    }
}

/// The hearts count the player's health: of `n` hearts, as many are lit as
/// there are hit points, none when health is gone and all when it is at
/// least `n`.
pub proof fn lemma_hearts_show_health(n: nat, current: int)
    ensures
        lit_hearts(n, current) == (if current <= 0 { 0 } else if current >= n { n as int } else { current }),
    decreases n,
{
    if n > 0 {
        lemma_hearts_show_health((n - 1) as nat, current);
    }
}

} // verus!
