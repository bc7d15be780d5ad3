//! Collision layers: each object category owns one bit of a `u32` mask.

use vstd::prelude::*;

verus! {

/// The categories of objects in the world. Each one owns a single bit of a
/// layer mask; the default category takes the lowest bit.
#[derive(Clone, Copy, Debug, PartialEq, Eq, Structural)]
pub enum ObjectLayer {
    Unassigned,
    Obstacle,
    Player,
    Door,
}

/// The number of object categories, and so the number of mask bits in use.
pub const LAYER_COUNT: u32 = 4;

/// Every bit that some category owns.
pub const ALL_LAYER_BITS: u32 = 0xf;

impl ObjectLayer {
    /// The position of the category's bit in a mask.
    pub open spec fn index(self) -> u32 {
        match self {
            ObjectLayer::Unassigned => 0,
            ObjectLayer::Obstacle => 1,
            ObjectLayer::Player => 2,
            ObjectLayer::Door => 3,
        }
    }

    /// The mask that holds this category alone.
    pub open spec fn bit(self) -> u32 {
        1u32 << self.index()
    }

    /// The position of the category's bit in a mask.
    pub fn layer_index(&self) -> (r: u32)
        ensures
            r == self.index(),
            r < LAYER_COUNT,
    {
        match self {
            ObjectLayer::Unassigned => 0,
            ObjectLayer::Obstacle => 1,
            ObjectLayer::Player => 2,
            ObjectLayer::Door => 3,
        }
    }

    /// The mask that holds this category alone.
    pub fn to_bits(&self) -> (r: u32)
        ensures
            r == self.bit(),
    {
        1u32 << self.layer_index()
    }

    /// The mask that holds every category.
    pub fn all_bits() -> (r: u32)
        ensures
            r == ALL_LAYER_BITS,
            forall|l: ObjectLayer| #[trigger] (r & l.bit()) == l.bit(),
    {
        proof {
            assert forall|l: ObjectLayer| #[trigger] (ALL_LAYER_BITS & l.bit()) == l.bit() by {
                lemma_bit_in_all(l.index());
            }
        }
        ALL_LAYER_BITS
    }
}

impl Default for ObjectLayer {
    fn default() -> (r: ObjectLayer)
        ensures
            r == ObjectLayer::Unassigned,
    {
        ObjectLayer::Unassigned
    }
}

/// The two halves of an object's collision layers: the categories it belongs
/// to, and the categories it collides with.
#[derive(Clone, Copy, Debug, PartialEq, Eq, Structural)]
pub struct LayerMasks {
    pub memberships: u32,
    pub filters: u32,
}

/// `mask` holds the bit of every category in `layers`, and no other bit.
pub open spec fn mask_of(mask: u32, layers: Seq<ObjectLayer>) -> bool {
    &&& mask & !ALL_LAYER_BITS == 0
    &&& forall|l: ObjectLayer|
        #[trigger] (mask & l.bit()) == (if layers.contains(l) {
            l.bit()
        } else {
            0u32
        })
}

/// A list of categories has exactly one mask.
pub proof fn lemma_mask_of_unique(m1: u32, m2: u32, layers: Seq<ObjectLayer>)
    requires
        mask_of(m1, layers),
        mask_of(m2, layers),
    ensures
        m1 == m2,
{
    assert(m1 & ObjectLayer::Unassigned.bit() == m2 & ObjectLayer::Unassigned.bit());
    assert(m1 & ObjectLayer::Obstacle.bit() == m2 & ObjectLayer::Obstacle.bit());
    assert(m1 & ObjectLayer::Player.bit() == m2 & ObjectLayer::Player.bit());
    assert(m1 & ObjectLayer::Door.bit() == m2 & ObjectLayer::Door.bit());
    assert(m1 & !0xfu32 == 0 && m2 & !0xfu32 == 0 && m1 & (1u32 << 0u32) == m2 & (1u32 << 0u32)
        && m1 & (1u32 << 1u32) == m2 & (1u32 << 1u32) && m1 & (1u32 << 2u32) == m2 & (1u32 << 2u32)
        && m1 & (1u32 << 3u32) == m2 & (1u32 << 3u32) ==> m1 == m2) by (bit_vector);
}

proof fn lemma_bit_in_all(i: u32)
    requires
        i < LAYER_COUNT,
    ensures
        ALL_LAYER_BITS & (1u32 << i) == (1u32 << i),
{
    assert(i < 4 ==> 0xfu32 & (1u32 << i) == (1u32 << i)) by (bit_vector);
}

proof fn lemma_or_bit(acc: u32, i: u32, j: u32)
    requires
        i < LAYER_COUNT,
        j < LAYER_COUNT,
    ensures
        (acc | (1u32 << i)) & (1u32 << j) == (if i == j {
            1u32 << j
        } else {
            acc & (1u32 << j)
        }),
        acc & !ALL_LAYER_BITS == 0 ==> (acc | (1u32 << i)) & !ALL_LAYER_BITS == 0,
{
    assert(i < 4 && j < 4 && i == j ==> (acc | (1u32 << i)) & (1u32 << j) == (1u32 << j))
        by (bit_vector);
    assert(i < 4 && j < 4 && i != j ==> (acc | (1u32 << i)) & (1u32 << j) == acc & (1u32 << j))
        by (bit_vector);
    assert(i < 4 && acc & !0xfu32 == 0 ==> (acc | (1u32 << i)) & !0xfu32 == 0) by (bit_vector);
}

proof fn lemma_distinct_index(a: ObjectLayer, b: ObjectLayer)
    ensures
        (a.index() == b.index()) == (a == b),
{
}

/// The mask of the categories in `layers`.
pub fn layer_mask(layers: &Vec<ObjectLayer>) -> (r: u32)
    ensures
        mask_of(r, layers@),
{
    let mut mask: u32 = 0;
    let mut i: usize = 0;
    proof {
        assert(0u32 & !0xfu32 == 0) by (bit_vector);
        assert forall|l: ObjectLayer| #[trigger] (0u32 & l.bit()) == 0u32 by {
            let b = l.bit();
            assert(0u32 & b == 0u32) by (bit_vector);
        }
    }
    while i < layers.len()
        invariant
            i <= layers.len(),
            mask_of(mask, layers@.take(i as int)),
        decreases layers.len() - i,
    {
        let layer = layers[i];
        let bit = layer.to_bits();
        proof {
            let old_seq = layers@.take(i as int);
            let new_seq = layers@.take(i + 1);
            assert(new_seq == old_seq.push(layer));
            assert forall|l: ObjectLayer| #[trigger] ((mask | bit) & l.bit()) == (if new_seq.contains(l) {
                l.bit()
            } else {
                0u32
            }) by {
                lemma_or_bit(mask, layer.index(), l.index());
                lemma_distinct_index(layer, l);
                assert(mask & l.bit() == (if old_seq.contains(l) { l.bit() } else { 0u32 }));
                if l == layer {
                    assert(new_seq[i as int] == l);
                } else if old_seq.contains(l) {
                    let k = choose|k: int| 0 <= k < old_seq.len() && old_seq[k] == l;
                    assert(new_seq[k] == l);
                } else if new_seq.contains(l) {
                    let k = choose|k: int| 0 <= k < new_seq.len() && new_seq[k] == l;
                    assert(k < i ==> old_seq[k] == l);
                }
            }
            lemma_or_bit(mask, layer.index(), 0);
        }
        mask = mask | bit;
        i = i + 1;
    }
    proof {
        assert(layers@.take(layers.len() as int) == layers@);
    }
    mask
}

/// The collision layers of an object that belongs to the categories in
/// `member_of` and collides with those in `collides_with`.
pub fn object_collision_layers(
    member_of: Vec<ObjectLayer>,
    collides_with: Vec<ObjectLayer>,
) -> (r: LayerMasks)
    ensures
        mask_of(r.memberships, member_of@),
        mask_of(r.filters, collides_with@),
{
    LayerMasks { memberships: layer_mask(&member_of), filters: layer_mask(&collides_with) }
}

} // verus!
