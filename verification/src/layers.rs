//! Sets of render layers: which renderable objects a camera sees.

use vstd::prelude::*;

verus! {

/// A set of render layers, numbered from 0 to 31.
///
/// A camera draws an object when their sets have a layer in common. Layer
/// `k` is in the set where bit `k` of `bits` is one.
#[derive(Clone, Copy, Debug, PartialEq, Eq, Structural)]
pub struct RenderLayers {
    /// One bit for each layer, the lowest for layer 0.
    pub bits: u32,
}

/// Whether bit `k` of `bits` is one.
pub open spec fn bit_is_set(bits: u32, k: u32) -> bool {
    k < 32 && (bits >> k) & 1u32 == 1u32
}

/// A number that is not zero after a shift by `from` has a bit set at `from`
/// or above.
proof fn lemma_some_bit_is_set(bits: u32, from: u32) -> (k: u32)
    requires
        from < 32,
        bits >> from != 0,
    ensures
        from <= k < 32,
        bit_is_set(bits, k),
    decreases 32 - from,
{
    if (bits >> from) & 1u32 == 1u32 {
        from
    } else if from == 31 {
        assert(bits >> 31u32 != 0 ==> (bits >> 31u32) & 1u32 == 1u32) by (bit_vector);
        from
    } else {
        let next = (from + 1) as u32;
        assert(from < 31 && bits >> from != 0 && (bits >> from) & 1u32 != 1u32 && next == from + 1
            ==> bits >> next != 0) by (bit_vector);
        lemma_some_bit_is_set(bits, next)
    }
}

impl RenderLayers {
    /// Whether `layer` is in the set.
    pub open spec fn contains(&self, layer: nat) -> bool {
        layer < 32 && bit_is_set(self.bits, layer as u32)
    }

    /// Whether the two sets have a layer in common.
    pub open spec fn overlaps(&self, other: &RenderLayers) -> bool {
        exists|layer: nat| self.contains(layer) && other.contains(layer)
    }

    /// Whether no layer is in the set.
    pub open spec fn has_no_layer(&self) -> bool {
        forall|layer: nat| !self.contains(layer)
    }

    /// The set is empty exactly where no bit is set.
    pub proof fn lemma_empty_is_zero(&self)
        ensures
            self.has_no_layer() <==> self.bits == 0,
    {
        let bits = self.bits;
        if bits == 0 {
            assert forall|layer: nat| !self.contains(layer) by {
                if layer < 32 {
                    let k = layer as u32;
                    assert(bits == 0 ==> (bits >> k) & 1u32 == 0) by (bit_vector);
                }
            }
        } else {
            assert(bits >> 0u32 == bits) by (bit_vector);
            let k = lemma_some_bit_is_set(bits, 0);
            assert(self.contains(k as nat));
        }
    }

    /// The sets overlap exactly where some bit is set in both.
    pub proof fn lemma_overlap_is_common_bit(&self, other: &RenderLayers)
        ensures
            self.overlaps(other) <==> self.bits & other.bits != 0,
    {
        let a = self.bits;
        let b = other.bits;
        let both = a & b;
        if both != 0 {
            assert(both >> 0u32 == both) by (bit_vector);
            let k = lemma_some_bit_is_set(both, 0);
            assert(both == a & b && k < 32 && (both >> k) & 1u32 == 1u32 ==> (a >> k) & 1u32 == 1u32
                && (b >> k) & 1u32 == 1u32) by (bit_vector);
            assert(self.contains(k as nat) && other.contains(k as nat));
        } else {
            assert forall|layer: nat| !(self.contains(layer) && other.contains(layer)) by {
                if layer < 32 {
                    let k = layer as u32;
                    assert(a & b == 0 && k < 32 ==> !((a >> k) & 1u32 == 1u32 && (b >> k) & 1u32
                        == 1u32)) by (bit_vector);
                }
            }
        }
    }

    /// The set whose one bit is bit `n`.
    pub open spec fn only(n: u8) -> RenderLayers {
        RenderLayers { bits: 1u32 << (n as u32) }
    }

    /// The set that holds `n` and no other layer.
    pub fn layer(n: u8) -> (layers: Self)
        requires
            n < 32,
        ensures
            layers == Self::only(n),
            forall|k: nat| layers.contains(k) <==> k == n,
    {
        let bits: u32 = 1u32 << (n as u32);
        let layers = RenderLayers { bits };
        proof {
            let n32 = n as u32;
            assert forall|k: nat| layers.contains(k) <==> k == n by {
                if k < 32 {
                    let k32 = k as u32;
                    assert(n32 < 32 && k32 < 32 ==> (((1u32 << n32) >> k32) & 1u32 == 1u32 <==> k32
                        == n32)) by (bit_vector);
                }
            }
        }
        layers
    }

    /// The empty set.
    pub fn none() -> (layers: Self)
        ensures
            layers.has_no_layer(),
    {
        let layers = RenderLayers { bits: 0 };
        proof {
            layers.lemma_empty_is_zero();
        }
        layers
    }

    /// Whether no layer is in the set.
    pub fn is_empty(&self) -> (empty: bool)
        ensures
            empty == self.has_no_layer(),
    {
        proof {
            self.lemma_empty_is_zero();
        }
        self.bits == 0
    }

    /// Whether the two sets have a layer in common.
    pub fn intersects(&self, other: &RenderLayers) -> (common: bool)
        ensures
            common == self.overlaps(other),
    {
        proof {
            self.lemma_overlap_is_common_bit(other);
        }
        (self.bits & other.bits) != 0
    }
}

} // verus!
