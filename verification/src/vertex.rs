//! Vertex buffer layouts and index data.
//!
//! A vertex record is a run of attributes stored back to back. The layout of
//! such a record gives every attribute the offset at which it starts and the
//! shader location it feeds, and the record its stride.

use vstd::prelude::*;

verus! {

/// The format of one vertex attribute: one to four 32-bit floats.
#[derive(Clone, Copy, Debug, PartialEq, Eq)]
pub enum AttributeFormat {
    Float32,
    Float32x2,
    Float32x3,
    Float32x4,
}

impl AttributeFormat {
    /// Bytes that an attribute of this format occupies.
    pub open spec fn byte_size(self) -> nat {
        match self {
            AttributeFormat::Float32 => 4,
            AttributeFormat::Float32x2 => 8,
            AttributeFormat::Float32x3 => 12,
            AttributeFormat::Float32x4 => 16,
        }
    }
}

/// Size in bytes of a format, as wgpu reports it.
///
/// Calls `wgpu::VertexFormat::size` on the wgpu format of the same name. The
/// contract lists what that function returns for these four formats.
#[verifier::external_body]
fn format_size(format: AttributeFormat) -> (size: u64)
    ensures
        size == format.byte_size(),
{
    let format = match format {
        AttributeFormat::Float32 => wgpu::VertexFormat::Float32,
        AttributeFormat::Float32x2 => wgpu::VertexFormat::Float32x2,
        AttributeFormat::Float32x3 => wgpu::VertexFormat::Float32x3,
        AttributeFormat::Float32x4 => wgpu::VertexFormat::Float32x4,
    };
    format.size()
}

/// One attribute of a vertex record.
#[derive(Clone, Copy, Debug, PartialEq, Eq)]
pub struct Attribute {
    pub format: AttributeFormat,
    /// Offset of the attribute from the start of the record, in bytes.
    pub offset: u64,
    /// The shader input that reads the attribute.
    pub shader_location: u32,
}

/// The layout of a vertex buffer: the stride from record to record and the
/// attributes of a record.
#[derive(Clone, Debug, PartialEq, Eq)]
pub struct VertexLayout {
    pub array_stride: u64,
    pub attributes: Vec<Attribute>,
}

/// Bytes taken by the first `n` of the attributes `slots`, each given as its
/// shader location and format.
pub open spec fn bytes_before(slots: Seq<(u32, AttributeFormat)>, n: int) -> nat
    decreases n,
{
    if n <= 0 {
        0
    } else {
        bytes_before(slots, n - 1) + slots[n - 1].1.byte_size()
    }
}

/// `attributes` are the attributes `slots`, in order and back to back from
/// offset zero.
pub open spec fn packs(attributes: Seq<Attribute>, slots: Seq<(u32, AttributeFormat)>) -> bool {
    &&& attributes.len() == slots.len()
    &&& forall|i: int|
        #![trigger attributes[i]]
        0 <= i < slots.len() ==> {
            &&& attributes[i].shader_location == slots[i].0
            &&& attributes[i].format == slots[i].1
            &&& attributes[i].offset == bytes_before(slots, i)
        }
}

/// The first `n` attributes take at most sixteen bytes each.
pub proof fn lemma_bytes_before_bound(slots: Seq<(u32, AttributeFormat)>, n: int)
    requires
        0 <= n,
    ensures
        bytes_before(slots, n) <= 16 * n,
    decreases n,
{
    if n > 0 {
        lemma_bytes_before_bound(slots, n - 1);
    }
}

/// Attributes laid out back to back do not overlap: an earlier attribute ends
/// at or before the offset at which any later one starts, and so the last
/// ends where the record does.
pub proof fn lemma_attributes_disjoint(slots: Seq<(u32, AttributeFormat)>, i: int, j: int)
    requires
        0 <= i < j,
    ensures
        bytes_before(slots, i) + slots[i].1.byte_size() <= bytes_before(slots, j),
    decreases j,
{
    if i + 1 < j {
        lemma_attributes_disjoint(slots, i, j - 1);
    }
}

/// Lays the attributes of a vertex record out back to back, as wgpu's
/// `vertex_attr_array!` does at compile time: each attribute starts where the
/// one before it ends, and the record ends with its last attribute.
pub fn packed_layout(slots: &[(u32, AttributeFormat)]) -> (layout: VertexLayout)
    requires
        16 * slots@.len() <= u64::MAX,
    ensures
        packs(layout.attributes@, slots@),
        layout.array_stride == bytes_before(slots@, slots@.len() as int),
{
    let mut attributes: Vec<Attribute> = Vec::new();
    let mut offset: u64 = 0;
    let mut i: usize = 0;
    while i < slots.len()
        invariant
            i <= slots@.len(),
            16 * slots@.len() <= u64::MAX,
            offset == bytes_before(slots@, i as int),
            attributes@.len() == i,
            forall|k: int|
                #![trigger attributes@[k]]
                0 <= k < i ==> {
                    &&& attributes@[k].shader_location == slots@[k].0
                    &&& attributes@[k].format == slots@[k].1
                    &&& attributes@[k].offset == bytes_before(slots@, k)
                },
        decreases slots@.len() - i,
    {
        let (shader_location, format) = slots[i];
        proof {
            lemma_bytes_before_bound(slots@, i + 1);
        }
        attributes.push(Attribute { format, offset, shader_location });
        offset = offset + format_size(format);
        i = i + 1;
    }
    VertexLayout { array_stride: offset, attributes }
}

/// `bytes` are the little-endian encodings of `indices`, in order.
pub open spec fn little_endian(bytes: Seq<u8>, indices: Seq<u16>) -> bool {
    &&& bytes.len() == 2 * indices.len()
    &&& forall|i: int|
        #![trigger indices[i]]
        0 <= i < indices.len() ==> bytes[2 * i] + 256 * bytes[2 * i + 1] == indices[i]
}

/// `bytes` are the big-endian encodings of `indices`, in order.
pub open spec fn big_endian(bytes: Seq<u8>, indices: Seq<u16>) -> bool {
    &&& bytes.len() == 2 * indices.len()
    &&& forall|i: int|
        #![trigger indices[i]]
        0 <= i < indices.len() ==> 256 * bytes[2 * i] + bytes[2 * i + 1] == indices[i]
}

/// The bytes of 16-bit indices as they lie in memory.
///
/// Calls `bytemuck::cast_slice` from `u16` to `u8`, which reinterprets the
/// slice in place and cannot fail in this direction. The byte order is the
/// machine's, so the contract allows both.
#[verifier::external_body]
fn native_bytes(indices: &[u16]) -> (bytes: Vec<u8>)
    ensures
        little_endian(bytes@, indices@) || big_endian(bytes@, indices@),
{
    bytemuck::cast_slice::<u16, u8>(indices).to_vec()
}

/// What an indexed draw needs of its indices: their bytes for the index
/// buffer and their number for the draw call.
#[derive(Clone, Debug, PartialEq, Eq)]
pub struct IndexData {
    pub bytes: Vec<u8>,
    pub count: u32,
}

/// Prepares 16-bit indices for an indexed draw, or `None` where there are
/// more of them than a draw call can count.
pub fn index_data(indices: &[u16]) -> (data: Option<IndexData>)
    ensures
        match data {
            Some(d) => {
                &&& d.count == indices@.len()
                &&& little_endian(d.bytes@, indices@) || big_endian(d.bytes@, indices@)
            },
            None => indices@.len() > u32::MAX,
        },
{
    if indices.len() > u32::MAX as usize {
        return None;
    }
    Some(IndexData { bytes: native_bytes(indices), count: indices.len() as u32 })
}

} // verus!
