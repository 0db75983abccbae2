//! The buffer layout planner: topology counts plus an ordered attribute
//! schema, laid out as `[index block][attribute 0]...[attribute n-1]`.

use vstd::prelude::*;
use crate::attribute::{attribute_length, AttributeDataType, MeshAttribute};

verus! {

/// Largest index count whose indices are stored as 16-bit values.
pub const MAX_SHORT_INDEX_COUNT: u32 = 65535;

/// Bytes of the index block: 2 per index up to `MAX_SHORT_INDEX_COUNT`
/// indices, 4 per index above.
pub open spec fn index_block_length(index_count: nat) -> nat {
    if index_count <= MAX_SHORT_INDEX_COUNT {
        index_count * 2
    } else {
        index_count * 4
    }
}

/// Sum of the block lengths of `s`.
pub open spec fn attrs_total(s: Seq<MeshAttribute>) -> nat
    decreases s.len(),
{
    if s.len() == 0 {
        0
    } else {
        attrs_total(s.drop_last()) + s.last().spec_length()
    }
}

/// A prefix of an attribute sequence never takes more bytes than the whole.
pub proof fn lemma_attrs_total_prefix(s: Seq<MeshAttribute>, i: int)
    requires
        0 <= i <= s.len(),
    ensures
        attrs_total(s.take(i)) <= attrs_total(s),
    decreases s.len(),
{
    if i < s.len() {
        assert(s.take(i) =~= s.drop_last().take(i));
        lemma_attrs_total_prefix(s.drop_last(), i);
    } else {
        assert(s.take(i) =~= s);
    }
}

/// The total of one more element of a prefix.
pub proof fn lemma_attrs_total_step(s: Seq<MeshAttribute>, i: int)
    requires
        0 <= i < s.len(),
    ensures
        attrs_total(s.take(i + 1)) == attrs_total(s.take(i)) + s[i].spec_length(),
{
    assert(s.take(i + 1).drop_last() =~= s.take(i));
}

/// Topology counts and the ordered attribute schema of one decode request.
#[derive(Debug)]
pub struct MeshDecodeConfig {
    pub(crate) vertex_count: u32,
    pub(crate) index_count: u32,
    pub(crate) index_length: u64,
    pub(crate) attributes: Vec<MeshAttribute>,
}

impl MeshDecodeConfig {
    pub open(crate) spec fn spec_vertex_count(&self) -> nat {
        self.vertex_count as nat
    }

    pub open(crate) spec fn spec_index_count(&self) -> nat {
        self.index_count as nat
    }

    pub open(crate) spec fn spec_index_length(&self) -> nat {
        self.index_length as nat
    }

    pub open(crate) spec fn spec_attributes(&self) -> Seq<MeshAttribute> {
        self.attributes@
    }

    /// Bytes the decoded output occupies: the index block and every
    /// attribute block.
    pub open(crate) spec fn spec_required_size(&self) -> nat {
        self.spec_index_length() + attrs_total(self.spec_attributes())
    }

    /// The layout rules: the index block has its threshold size, each
    /// attribute block has `dim * vertex_count * width` bytes and starts
    /// where the blocks before it end, and the total is a 64-bit byte count.
    pub open(crate) spec fn wf(&self) -> bool {
        let attrs = self.spec_attributes();
        &&& self.spec_index_length() == index_block_length(self.spec_index_count())
        &&& forall|i: int|
            0 <= i < attrs.len() ==> (#[trigger] attrs[i]).spec_length() == attribute_length(
                attrs[i].spec_dim(),
                self.spec_vertex_count(),
                attrs[i].spec_data_type(),
            )
        &&& forall|i: int|
            0 <= i < attrs.len() ==> (#[trigger] attrs[i]).spec_offset() == self.spec_index_length()
                + attrs_total(attrs.take(i))
        &&& self.spec_required_size() <= u64::MAX
    }

    /// A layout for `vertex_count` vertices and `index_count` indices, with
    /// no attributes yet.
    pub fn new(vertex_count: u32, index_count: u32) -> (r: Self)
        ensures
            r.wf(),
            r.spec_vertex_count() == vertex_count,
            r.spec_index_count() == index_count,
            r.spec_index_length() == index_block_length(index_count as nat),
            r.spec_attributes().len() == 0,
            r.spec_required_size() == r.spec_index_length(),
    {
        let index_length: u64 = if index_count <= MAX_SHORT_INDEX_COUNT {
            index_count as u64 * 2
        } else {
            index_count as u64 * 4
        };
        let r = MeshDecodeConfig { vertex_count, index_count, index_length, attributes: Vec::new() };
        assert(r.spec_attributes() =~= Seq::<MeshAttribute>::empty());
        r
    }

    /// Size in bytes of the index block at the start of the output.
    pub fn index_length(&self) -> (r: u64)
        requires
            self.wf(),
        ensures
            r == index_block_length(self.spec_index_count()),
    {
        self.index_length
    }

    /// Bytes the decoded output occupies, as a 64-bit count: the index
    /// block plus every attribute block. Recomputed from the schema on each
    /// call.
    pub fn required_size(&self) -> (r: u64)
        requires
            self.wf(),
        ensures
            r == self.spec_required_size(),
    {
        let attrs = &self.attributes;
        let mut size: u64 = self.index_length;
        let mut i: usize = 0;
        while i < attrs.len()
            invariant
                self.wf(),
                attrs@ == self.spec_attributes(),
                0 <= i <= attrs.len(),
                size == self.spec_index_length() + attrs_total(attrs@.take(i as int)),
            decreases attrs.len() - i,
        {
            proof {
                lemma_attrs_total_step(attrs@, i as int);
                lemma_attrs_total_prefix(attrs@, i as int + 1);
            }
            size = size + attrs[i].lenght;
            i = i + 1;
        }
        assert(attrs@.take(i as int) =~= attrs@);
        size
    }

    /// Appends an attribute of `dim` components of `data_type` per vertex.
    /// Its block starts where the output ended before the call. The new
    /// total must still be a 64-bit byte count.
    pub fn add_attribute(&mut self, dim: u32, data_type: AttributeDataType)
        requires
            old(self).wf(),
            old(self).spec_required_size() + attribute_length(
                dim as nat,
                old(self).spec_vertex_count(),
                data_type,
            ) <= u64::MAX,
        ensures
            final(self).wf(),
            final(self).spec_vertex_count() == old(self).spec_vertex_count(),
            final(self).spec_index_count() == old(self).spec_index_count(),
            final(self).spec_index_length() == old(self).spec_index_length(),
            final(self).spec_attributes().len() == old(self).spec_attributes().len() + 1,
            final(self).spec_attributes().drop_last() == old(self).spec_attributes(),
            final(self).spec_attributes().last().spec_dim() == dim,
            final(self).spec_attributes().last().spec_data_type() == data_type,
            final(self).spec_attributes().last().spec_offset() == old(self).spec_required_size(),
            final(self).spec_attributes().last().spec_length() == attribute_length(
                dim as nat,
                old(self).spec_vertex_count(),
                data_type,
            ),
            final(self).spec_required_size() == old(self).spec_required_size() + attribute_length(
                dim as nat,
                old(self).spec_vertex_count(),
                data_type,
            ),
    {
        let offset = self.required_size();
        let w = data_type.size_in_bytes() as u64;
        let d = dim as u64;
        let v = self.vertex_count as u64;
        proof {
            assert(d * v <= d * v * w) by (nonlinear_arith)
                requires
                    w >= 1,
            ;
            assert(d * v * w <= u64::MAX);
        }
        let lenght = d * v * w;
        let attribute = MeshAttribute { dim, data_type, offset, lenght };
        let ghost before = self.attributes@;
        self.attributes.push(attribute);
        proof {
            let attrs = self.attributes@;
            assert(attrs.drop_last() =~= before);
            assert(attrs.take(before.len() as int) =~= before);
            assert forall|i: int| 0 <= i < before.len() implies attrs.take(i) =~= before.take(i) by {}
        }
    }

    /// The attribute at insertion position `index`, or `None` past the end.
    pub fn get_attribute(&self, index: usize) -> (r: Option<&MeshAttribute>)
        ensures
            index < self.spec_attributes().len() ==> r is Some && *r->0
                == self.spec_attributes()[index as int],
            index >= self.spec_attributes().len() ==> r is None,
    {
        if index < self.attributes.len() {
            Some(&self.attributes[index])
        } else {
            None
        }
    }

    /// A copy of the attribute schema, in insertion order.
    pub fn attributes(&self) -> (r: Vec<MeshAttribute>)
        ensures
            r@ == self.spec_attributes(),
    {
        let mut r: Vec<MeshAttribute> = Vec::new();
        let mut i: usize = 0;
        while i < self.attributes.len()
            invariant
                0 <= i <= self.attributes.len(),
                r@ == self.spec_attributes().take(i as int),
            decreases self.attributes.len() - i,
        {
            r.push(self.attributes[i]);
            i = i + 1;
            assert(r@ =~= self.spec_attributes().take(i as int));
        }
        assert(self.spec_attributes().take(i as int) =~= self.spec_attributes());
        r
    }

    /// Bytes the decoded output occupies: the index block plus every
    /// attribute block. Recomputed from the schema on each call.
    pub fn estimate_buffer_size(&self) -> (r: usize)
        requires
            self.wf(),
            self.spec_required_size() <= usize::MAX,
        ensures
            r == self.spec_required_size(),
    {
        self.required_size() as usize
    }
}

/// Each attribute block starts where the index block and all blocks appended
/// before it end, every block lies inside the output, and no two blocks
/// overlap.
pub proof fn lemma_attribute_blocks_contiguous(c: &MeshDecodeConfig)
    requires
        c.wf(),
    ensures
        forall|i: int|
            0 <= i < c.spec_attributes().len() ==> (#[trigger] c.spec_attributes()[i]).spec_offset()
                == index_block_length(c.spec_index_count()) + attrs_total(
                c.spec_attributes().take(i),
            ),
        forall|i: int|
            0 <= i < c.spec_attributes().len() ==> index_block_length(c.spec_index_count())
                <= (#[trigger] c.spec_attributes()[i]).spec_offset() && c.spec_attributes()[i].spec_offset()
                + c.spec_attributes()[i].spec_length() <= c.spec_required_size(),
        forall|i: int, j: int|
            0 <= i < j < c.spec_attributes().len() ==> (#[trigger] c.spec_attributes()[i]).spec_offset()
                + c.spec_attributes()[i].spec_length() <= (#[trigger] c.spec_attributes()[j]).spec_offset(),
{
    let s = c.spec_attributes();
    assert forall|i: int| 0 <= i < s.len() implies index_block_length(c.spec_index_count())
        <= (#[trigger] s[i]).spec_offset() && s[i].spec_offset() + s[i].spec_length()
        <= c.spec_required_size() by {
        lemma_attrs_total_step(s, i);
        lemma_attrs_total_prefix(s, i + 1);
    }
    assert forall|i: int, j: int| 0 <= i < j < s.len() implies (#[trigger] s[i]).spec_offset()
        + s[i].spec_length() <= (#[trigger] s[j]).spec_offset() by {
        lemma_attrs_total_step(s, i);
        lemma_attrs_total_prefix(s.take(j), i + 1);
        assert(s.take(j).take(i + 1) =~= s.take(i + 1));
    }
}

/// Where every attribute block is non-empty, offsets strictly increase in
/// insertion order.
pub proof fn lemma_offsets_strictly_increasing(c: &MeshDecodeConfig)
    requires
        c.wf(),
        forall|i: int|
            0 <= i < c.spec_attributes().len() ==> (#[trigger] c.spec_attributes()[i]).spec_length() > 0,
    ensures
        forall|i: int, j: int|
            0 <= i < j < c.spec_attributes().len() ==> (#[trigger] c.spec_attributes()[i]).spec_offset()
                < (#[trigger] c.spec_attributes()[j]).spec_offset(),
{
    lemma_attribute_blocks_contiguous(c);
    let s = c.spec_attributes();
    assert forall|i: int, j: int| 0 <= i < j < s.len() implies (#[trigger] s[i]).spec_offset()
        < (#[trigger] s[j]).spec_offset() by {
        assert(s[i].spec_length() > 0);
        assert(s[i].spec_offset() + s[i].spec_length() <= s[j].spec_offset());
    }
}

/// A layout without attributes needs exactly its index block.
pub proof fn lemma_required_size_without_attributes(c: &MeshDecodeConfig)
    requires
        c.wf(),
        c.spec_attributes().len() == 0,
    ensures
        c.spec_required_size() == index_block_length(c.spec_index_count()),
{
}

} // verus!
