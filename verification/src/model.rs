//! Vertices, edges and edge weights.

use vstd::prelude::*;
use uuid::Uuid;

verus! {

/// The bit pattern of 1.0 in IEEE 754 single precision.
pub const ONE_BITS: u32 = 0x3f80_0000;

/// The bit pattern of positive infinity in IEEE 754 single precision.
pub const INFINITY_BITS: u32 = 0x7f80_0000;

/// The magnitude of a single-precision bit pattern: the pattern without its
/// sign bit. Among patterns that are numbers, a larger magnitude is a larger
/// absolute value.
pub open spec fn magnitude(bits: u32) -> u32 {
    bits & 0x7fff_ffffu32
}

/// Whether the single-precision value with these bits lies outside
/// [-1.0, 1.0]: its magnitude exceeds that of 1.0. That holds of every number
/// below -1.0 or above 1.0, of both infinities, and of every pattern that is
/// not a number, since such a pattern is no value within the range.
pub open spec fn weight_out_of_range(bits: u32) -> bool {
    ONE_BITS < magnitude(bits)
}

/// A weight and its negation are in range together: the range test does not
/// read the sign bit.
pub proof fn lemma_weight_range_ignores_sign(bits: u32)
    ensures
        weight_out_of_range(bits) == weight_out_of_range(bits ^ 0x8000_0000u32),
{
    assert(bits & 0x7fff_ffffu32 == (bits ^ 0x8000_0000u32) & 0x7fff_ffffu32) by (bit_vector);
}

/// Both infinities and every pattern that is not a number are out of range:
/// nothing but a finite number within [-1.0, 1.0] passes the range test.
pub proof fn lemma_weight_not_finite_is_out_of_range(bits: u32)
    requires
        magnitude(bits) >= INFINITY_BITS,
    ensures
        weight_out_of_range(bits),
{
}

/// An edge weight, held as the IEEE 754 single-precision bit pattern of the
/// fraction (what `f32::to_bits` gives and `f32::from_bits` takes).
#[derive(Clone, Copy, Debug, PartialEq, Eq)]
pub struct Weight {
    pub bits: u32,
}

impl Weight {
    /// The weight with the given bit pattern.
    pub fn from_bits(bits: u32) -> (w: Weight)
        ensures
            w.bits == bits,
    {
        Weight { bits }
    }

    /// Whether the weight lies outside [-1.0, 1.0].
    pub fn is_out_of_range(&self) -> (out: bool)
        ensures
            out == weight_out_of_range(self.bits),
    {
        let m: u32 = self.bits & 0x7fff_ffffu32;
        ONE_BITS < m
    }
}

/// A vertex: its identifier and its type label.
#[derive(Debug, PartialEq)]
pub struct Vertex {
    pub id: Uuid,
    pub t: String,
}

/// The mathematical value of a [`Vertex`].
pub struct VertexView {
    pub id: Uuid,
    pub t: Seq<char>,
}

impl View for Vertex {
    type V = VertexView;

    open spec fn view(&self) -> VertexView {
        VertexView { id: self.id, t: self.t@ }
    }
}

impl Vertex {
    pub fn new(id: Uuid, t: String) -> (v: Vertex)
        ensures
            v@ == (VertexView { id, t: t@ }),
    {
        Vertex { id, t }
    }
}

/// An edge, keyed by its outbound vertex, its type label and its inbound
/// vertex.
#[derive(Debug, PartialEq)]
pub struct Edge {
    pub outbound_id: Uuid,
    pub t: String,
    pub inbound_id: Uuid,
    pub weight: Weight,
}

/// The mathematical value of an [`Edge`].
pub struct EdgeView {
    pub outbound_id: Uuid,
    pub t: Seq<char>,
    pub inbound_id: Uuid,
    pub weight: Weight,
}

impl View for Edge {
    type V = EdgeView;

    open spec fn view(&self) -> EdgeView {
        EdgeView {
            outbound_id: self.outbound_id,
            t: self.t@,
            inbound_id: self.inbound_id,
            weight: self.weight,
        }
    }
}

impl Edge {
    pub fn new(outbound_id: Uuid, t: String, inbound_id: Uuid, weight: Weight) -> (e: Edge)
        ensures
            e@ == (EdgeView { outbound_id, t: t@, inbound_id, weight }),
    {
        Edge { outbound_id, t, inbound_id, weight }
    }
}

} // verus!
