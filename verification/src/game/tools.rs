//! Tools: the one-tool-at-a-time rule, picking up and swapping, and the pinecone.
use vstd::prelude::*;
use vstd::multiset::Multiset;
use crate::proximity::{any_within, is_nearest_within, lists_all_within, nearest_within, nearest, all_within};

verus! {

/// The kinds of tool.
#[derive(Clone, Copy, Debug, PartialEq, Eq, Structural)]
pub enum ToolKind {
    Pinecone,
}

impl ToolKind {
    /// The tool's name.
    pub fn label(&self) -> (s: &'static str)
        ensures
            s@ == (match self {
                ToolKind::Pinecone => "Pinecone"@,
            }),
    {
        match self {
            ToolKind::Pinecone => "Pinecone",
        }
    }
}

/// The tool the player carries.
#[derive(Clone, Copy, Debug, PartialEq, Eq, Structural)]
pub struct HeldTool(pub ToolKind);

/// Items within 48 units can be picked up: the order key of 48.0.
pub const PICKUP_RANGE: u32 = 0x4240_0000;

/// A pinecone hurts every enemy within 60 units of where it lands: the order key of 60.0.
pub const PINECONE_BLAST_RADIUS: u32 = 0x4270_0000;

/// The damage a pinecone deals to each enemy in its blast.
pub const PINECONE_DAMAGE: i32 = 5;

/// A swap: the ground item taken, the tool now held, and the tool dropped
/// where the player stands, if one was held.
#[derive(Clone, Copy, Debug, PartialEq, Eq, Structural)]
pub struct Pickup {
    pub item: usize,
    pub taken: ToolKind,
    pub dropped: Option<ToolKind>,
}

/// Pressing the pickup key takes the nearest ground item within
/// `PICKUP_RANGE` (the first of equally near ones); whatever was held is
/// dropped in its place. `item_keys[i]` is the distance key of ground item `i`
/// and `item_kinds[i]` its kind. Nothing happens without the key, or with
/// nothing in reach.
pub fn pickup_tool(key_pressed: bool, held: Option<HeldTool>, item_keys: &[u32], item_kinds: &[ToolKind]) -> (r: Option<Pickup>)
    requires
        item_keys@.len() == item_kinds@.len(),
    ensures
        r is Some <==> key_pressed && any_within(item_keys@, PICKUP_RANGE),
        r matches Some(p) ==> {
            &&& is_nearest_within(item_keys@, PICKUP_RANGE, p.item as int)
            &&& p.taken == item_kinds@[p.item as int]
            &&& p.dropped == (match held {
                Some(h) => Some(h.0),
                None => None::<ToolKind>,
            })
        },
{
    if !key_pressed {
        return None;
    }
    match nearest_within(item_keys, PICKUP_RANGE) {
        None => None,
        Some(i) => {
            let dropped = match held {
                Some(h) => Some(h.0),
                None => None,
            };
            Some(Pickup { item: i, taken: item_kinds[i], dropped })
        },
    }
}

/// The tools on the ground after a swap: the item taken is gone, and the
/// dropped tool, if any, lies where the player stands.
pub open spec fn ground_after(ground: Seq<ToolKind>, p: Pickup) -> Seq<ToolKind> {
    match p.dropped {
        Some(k) => ground.remove(p.item as int).push(k),
        None => ground.remove(p.item as int),
    }
}

/// The tools a player carries: none, or the one held.
pub open spec fn carried(held: Option<ToolKind>) -> Multiset<ToolKind> {
    match held {
        Some(k) => Multiset::singleton(k),
        None => Multiset::empty(),
    }
}

/// One tool at a time, and none lost: a swap neither makes nor destroys a
/// tool. The tools on the ground and in hand are the same before and after.
pub proof fn lemma_swap_keeps_tools(ground: Seq<ToolKind>, held: Option<ToolKind>, p: Pickup)
    requires
        p.item < ground.len(),
        p.taken == ground[p.item as int],
        p.dropped == held,
    ensures
        ground_after(ground, p).to_multiset().add(carried(Some(p.taken)))
            =~= ground.to_multiset().add(carried(held)),
{
    broadcast use vstd::seq_lib::group_to_multiset_ensures;
    broadcast use vstd::multiset::group_multiset_axioms;
    assert(ground.remove(p.item as int).to_multiset() =~= ground.to_multiset().remove(ground[p.item as int]));
    assert(ground.to_multiset().count(ground[p.item as int]) > 0) by {
        assert(ground.contains(ground[p.item as int]));
    }
}

/// A distance key that is NaN: all exponent bits set and a fraction.
pub open spec fn is_nan_key(key: u32) -> bool {
    (0x7f80_0000u32 < key && key <= 0x7fff_ffffu32) || 0xff80_0000u32 < key
}

/// A pinecone thrown: at the nearest enemy, or straight ahead (to the right)
/// when there is none.
#[derive(Clone, Copy, Debug, PartialEq, Eq, Structural)]
pub struct Throw {
    pub target: Option<usize>,
}

/// Pressing the use key with a tool in hand uses it. A pinecone is thrown at
/// the nearest enemy (the first of equally near ones), or to the right when
/// there are none, and is used up: the player's hand is empty afterwards.
/// Nothing happens without the key or without a tool. Aiming compares the
/// distances, which cannot be done with a NaN among two or more of them.
pub fn activate_tool(key_pressed: bool, held: &mut Option<HeldTool>, enemy_keys: &[u32]) -> (r: Option<Throw>)
    requires
        key_pressed && *old(held) is Some && enemy_keys@.len() >= 2 ==>
            forall|j: int| 0 <= j < enemy_keys@.len() ==> !is_nan_key(#[trigger] enemy_keys@[j]),
    ensures
        r is Some <==> key_pressed && *old(held) is Some,
        r is Some ==> *final(held) is None,
        r is None ==> *final(held) == *old(held),
        r matches Some(t) ==> {
            &&& t.target is None <==> enemy_keys@.len() == 0
            &&& t.target matches Some(i) ==> is_nearest_within(enemy_keys@, u32::MAX, i as int)
        },
{
    if !key_pressed {
        return None;
    }
    match *held {
        None => None,
        Some(HeldTool(ToolKind::Pinecone)) => {
            let target = nearest(enemy_keys);
            *held = None;
            Some(Throw { target })
        },
    }
}

/// Where a pinecone lands, every enemy within `PINECONE_BLAST_RADIUS` is hit
/// for `PINECONE_DAMAGE`: the indices of those enemies, in order.
pub fn pinecone_blast(enemy_keys: &[u32]) -> (hit: Vec<usize>)
    ensures
        lists_all_within(enemy_keys@, PINECONE_BLAST_RADIUS, hit@),
{
    all_within(enemy_keys, PINECONE_BLAST_RADIUS)
}

} // verus!
