//! Collision-layer identities and the group/mask bitsets built from them.
//!
//! Every collidable body carries exactly one "group" layer (its own
//! identity) and a set of "mask" layers it is willing to generate contact
//! events against.  This is the sole mechanism for telling gameplay-relevant
//! collision pairs apart from noise.

use vstd::prelude::*;

verus! {

/// The closed set of collision-layer identities.
#[derive(Clone, Copy, Debug, PartialEq, Eq, Structural)]
pub enum Layer {
    World,
    Player,
    GroundDetector,
    LeftWallDetector,
    RightWallDetector,
}

/// The bit a layer occupies inside a group or mask bitset.
pub open spec fn spec_layer_bits(layer: Layer) -> u16 {
    match layer {
        Layer::World => 1,
        Layer::Player => 2,
        Layer::GroundDetector => 4,
        Layer::LeftWallDetector => 8,
        Layer::RightWallDetector => 16,
    }
}

impl Layer {
    /// The bit this layer occupies inside a group or mask bitset.
    pub fn bits(self) -> (r: u16)
        ensures
            r == spec_layer_bits(self),
    {
        match self {
            Layer::World => 1,
            Layer::Player => 2,
            Layer::GroundDetector => 4,
            Layer::LeftWallDetector => 8,
            Layer::RightWallDetector => 16,
        }
    }
}

/// A (group, mask) pairing: which layer a body belongs to and which layers
/// it generates collision events against.
#[derive(Clone, Copy, Debug, PartialEq, Eq, Structural)]
pub struct CollisionLayers {
    pub groups: u16,
    pub masks: u16,
}

/// Whether `layers` declares `layer` among its group bits.
pub open spec fn spec_contains_group(layers: CollisionLayers, layer: Layer) -> bool {
    layers.groups & spec_layer_bits(layer) != 0
}

/// Whether `layers` declares `layer` among its mask bits.
pub open spec fn spec_contains_mask(layers: CollisionLayers, layer: Layer) -> bool {
    layers.masks & spec_layer_bits(layer) != 0
}

/// The pairing test: two bodies generate collision events against each
/// other exactly when each one's group bits meet the other's mask bits.
pub open spec fn spec_interacts(a: CollisionLayers, b: CollisionLayers) -> bool {
    a.groups & b.masks != 0 && b.groups & a.masks != 0
}

/// Joining a bit into the zero bitset yields exactly that bit.
pub proof fn lemma_or_into_zero(bit: u16)
    ensures
        0u16 | bit == bit,
{
    assert(0u16 | bit == bit) by (bit_vector);
}

impl CollisionLayers {
    /// The empty pairing: no group, no masks.
    pub fn none() -> (r: Self)
        ensures
            r.groups == 0,
            r.masks == 0,
    {
        CollisionLayers { groups: 0, masks: 0 }
    }

    /// Adds `layer` to the group bits.
    pub fn with_group(self, layer: Layer) -> (r: Self)
        ensures
            r.groups == self.groups | spec_layer_bits(layer),
            r.masks == self.masks,
    {
        CollisionLayers { groups: self.groups | layer.bits(), masks: self.masks }
    }

    /// Adds `layer` to the mask bits.
    pub fn with_mask(self, layer: Layer) -> (r: Self)
        ensures
            r.groups == self.groups,
            r.masks == self.masks | spec_layer_bits(layer),
    {
        CollisionLayers { groups: self.groups, masks: self.masks | layer.bits() }
    }

    /// Adds every layer of `layers` to the mask bits, in order.
    pub fn with_masks(self, layers: &[Layer]) -> (r: Self)
        ensures
            r.groups == self.groups,
            r.masks == spec_fold_masks(self.masks, layers@),
    {
        let mut acc = self;
        let n = layers.len();
        let mut i: usize = 0;
        while i < n
            invariant
                n == layers@.len(),
                i <= n,
                acc.groups == self.groups,
                acc.masks == spec_fold_masks(self.masks, layers@.take(i as int)),
            decreases n - i,
        {
            acc = acc.with_mask(layers[i]);
            i = i + 1;
            assert(layers@.take(i as int).drop_last() =~= layers@.take(i - 1));
        }
        assert(layers@.take(n as int) =~= layers@);
        acc
    }

    /// Whether this pairing declares `layer` among its group bits.
    pub fn contains_group(&self, layer: Layer) -> (r: bool)
        ensures
            r == spec_contains_group(*self, layer),
    {
        self.groups & layer.bits() != 0
    }

    /// Whether this pairing declares `layer` among its mask bits.
    pub fn contains_mask(&self, layer: Layer) -> (r: bool)
        ensures
            r == spec_contains_mask(*self, layer),
    {
        self.masks & layer.bits() != 0
    }

    /// The pairing test over two bitsets: whether the two bodies generate
    /// collision events against each other.
    pub fn interacts_with(&self, other: &Self) -> (r: bool)
        ensures
            r == spec_interacts(*self, *other),
    {
        self.groups & other.masks != 0 && other.groups & self.masks != 0
    }
}

/// The mask bits after joining every layer of `layers` into `masks`, in order.
pub open spec fn spec_fold_masks(masks: u16, layers: Seq<Layer>) -> u16
    decreases layers.len(),
{
    if layers.len() == 0 {
        masks
    } else {
        spec_fold_masks(masks, layers.drop_last()) | spec_layer_bits(layers.last())
    }
}

} // verus!
