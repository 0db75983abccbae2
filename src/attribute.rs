//! Scalar element encodings and per-vertex attribute descriptors.

use vstd::prelude::*;

verus! {

/// The scalar encoding of one component of a vertex attribute.
#[derive(Debug, Clone, Copy, PartialEq, Eq, Structural)]
pub enum AttributeDataType {
    Int8,
    UInt8,
    Int16,
    UInt16,
    Int32,
    UInt32,
    Float32,
}

/// Byte width of one scalar of the given encoding.
pub open spec fn width(t: AttributeDataType) -> nat {
    match t {
        AttributeDataType::Int8 | AttributeDataType::UInt8 => 1,
        AttributeDataType::Int16 | AttributeDataType::UInt16 => 2,
        AttributeDataType::Int32 | AttributeDataType::UInt32 | AttributeDataType::Float32 => 4,
    }
}

impl AttributeDataType {
    /// Number of bytes one scalar of this encoding occupies.
    pub fn size_in_bytes(&self) -> (r: usize)
        ensures
            r == width(*self),
            1 <= r <= 4,
    {
        match self {
            AttributeDataType::Int8 | AttributeDataType::UInt8 => 1,
            AttributeDataType::Int16 | AttributeDataType::UInt16 => 2,
            AttributeDataType::Int32 | AttributeDataType::UInt32 | AttributeDataType::Float32 => 4,
        }
    }
}

/// One entry of an output layout: `dim` components of `data_type` per
/// vertex, stored at bytes `[offset, offset + lenght)` of the output buffer.
#[derive(Debug, Clone, Copy)]
pub struct MeshAttribute {
    pub(crate) dim: u32,
    pub(crate) data_type: AttributeDataType,
    pub(crate) offset: u64,
    pub(crate) lenght: u64,
}

/// Bytes taken by an attribute of `dim` components of type `t` over
/// `vertex_count` vertices.
pub open spec fn attribute_length(dim: nat, vertex_count: nat, t: AttributeDataType) -> nat {
    dim * vertex_count * width(t)
}

impl MeshAttribute {
    pub open(crate) spec fn spec_offset(&self) -> nat {
        self.offset as nat
    }

    pub open(crate) spec fn spec_length(&self) -> nat {
        self.lenght as nat
    }

    pub open(crate) spec fn spec_dim(&self) -> nat {
        self.dim as nat
    }

    pub open(crate) spec fn spec_data_type(&self) -> AttributeDataType {
        self.data_type
    }

    /// First byte of this attribute's block in the output buffer.
    pub fn offset(&self) -> (r: u64)
        ensures
            r == self.spec_offset(),
    {
        self.offset
    }

    /// Size in bytes of this attribute's block in the output buffer.
    pub fn lenght(&self) -> (r: u64)
        ensures
            r == self.spec_length(),
    {
        self.lenght
    }

    /// Scalar encoding of each component.
    pub fn data_type(&self) -> (r: AttributeDataType)
        ensures
            r == self.spec_data_type(),
    {
        self.data_type
    }

    /// Number of components per vertex.
    pub fn dim(&self) -> (r: u32)
        ensures
            r == self.spec_dim(),
    {
        self.dim
    }
}

} // verus!
