//! The per-instance record of the instance buffer and its vertex layout.

use crate::bytes::{native_bytes, words_to_bytes};
use crate::model::{
    Vertex, VertexAttribute, VertexBufferLayout, VertexBufferLayoutView, VertexFormat,
    VertexStepMode,
};
use vstd::prelude::*;

verus! {

/// Number of 32-bit words in one record: a 4x4 and a 3x3 matrix.
pub const RECORD_WORDS: usize = 25;

/// Number of bytes in one record.
pub const RECORD_SIZE: usize = 100;

/// What the GPU reads for one instance: the model transform as four vectors
/// of four entries and the transform of normals as three vectors of three.
/// Each entry is the bit pattern of a 32-bit float.
#[derive(Clone, Copy, Debug, PartialEq, Eq)]
pub struct InstanceRaw {
    pub model: [[u32; 4]; 4],
    pub normal: [[u32; 3]; 3],
}

impl InstanceRaw {
    /// The record's words in memory order: the vectors of `model`, one after
    /// the other, then those of `normal`.
    pub open spec fn words(self) -> Seq<u32> {
        Seq::new(
            25,
            |i: int|
                if i < 16 {
                    self.model[i / 4][i % 4]
                } else {
                    self.normal[(i - 16) / 3][(i - 16) % 3]
                },
        )
    }

    /// Appends the record's words to `out`.
    pub fn write_words(&self, out: &mut Vec<u32>)
        ensures
            final(out)@ == old(out)@ + self.words(),
    {
        let ghost before = out@;
        let mut row: usize = 0;
        while row < 4
            invariant
                row <= 4,
                out@ == before + self.words().take(4 * row as int),
            decreases 4 - row,
        {
            let mut col: usize = 0;
            while col < 4
                invariant
                    row < 4,
                    col <= 4,
                    out@ == before + self.words().take(4 * row + col),
                decreases 4 - col,
            {
                out.push(self.model[row][col]);
                col += 1;
            }
            row += 1;
        }
        let mut row: usize = 0;
        while row < 3
            invariant
                row <= 3,
                out@ == before + self.words().take(16 + 3 * row as int),
            decreases 3 - row,
        {
            let mut col: usize = 0;
            while col < 3
                invariant
                    row < 3,
                    col <= 3,
                    out@ == before + self.words().take(16 + 3 * row + col),
                decreases 3 - col,
            {
                out.push(self.normal[row][col]);
                col += 1;
            }
            row += 1;
        }
    }
}

/// The attributes of the instance buffer: the four vectors of the model
/// matrix at shader locations 5 to 8, then the three vectors of the normal
/// matrix at locations 9 to 11.
pub open spec fn instance_attributes() -> Seq<VertexAttribute> {
    seq![
        VertexAttribute { format: VertexFormat::Float32x4, offset: 0, shader_location: 5 },
        VertexAttribute { format: VertexFormat::Float32x4, offset: 16, shader_location: 6 },
        VertexAttribute { format: VertexFormat::Float32x4, offset: 32, shader_location: 7 },
        VertexAttribute { format: VertexFormat::Float32x4, offset: 48, shader_location: 8 },
        VertexAttribute { format: VertexFormat::Float32x3, offset: 64, shader_location: 9 },
        VertexAttribute { format: VertexFormat::Float32x3, offset: 76, shader_location: 10 },
        VertexAttribute { format: VertexFormat::Float32x3, offset: 88, shader_location: 11 },
    ]
}

/// The layout of the instance buffer: one record for each instance.
pub open spec fn instance_layout() -> VertexBufferLayoutView {
    VertexBufferLayoutView {
        array_stride: 100,
        step_mode: VertexStepMode::Instance,
        attributes: instance_attributes(),
    }
}

impl Vertex for InstanceRaw {
    /// One record per instance, `RECORD_SIZE` bytes apart, read as seven
    /// attributes that cover the record exactly.
    fn desc() -> (layout: VertexBufferLayout)
        ensures
            layout@ == instance_layout(),
            layout@.is_packed(),
    {
        let mut attributes: Vec<VertexAttribute> = Vec::new();
        let mut offset: u64 = 0;
        let mut shader_location: u32 = 5;
        let mut row: usize = 0;
        while row < 7
            invariant
                row <= 7,
                shader_location == 5 + row,
                offset == if row <= 4 {
                    16 * row
                } else {
                    64 + 12 * (row - 4)
                },
                attributes@ == instance_attributes().take(row as int),
            decreases 7 - row,
        {
            let format = if row < 4 {
                VertexFormat::Float32x4
            } else {
                VertexFormat::Float32x3
            };
            attributes.push(VertexAttribute { format, offset, shader_location });
            offset += format.size();
            shader_location += 1;
            row += 1;
        }
        assert(attributes@ == instance_attributes());
        VertexBufferLayout { array_stride: offset, step_mode: VertexStepMode::Instance, attributes }
    }
}

/// The words of the records one after the other.
pub open spec fn packed_words(records: Seq<InstanceRaw>) -> Seq<u32> {
    Seq::new(25 * records.len(), |i: int| records[i / 25].words()[i % 25])
}

/// The contents of an instance buffer that holds `records`: the bytes of one
/// record after the other, as they lie in memory.
pub open spec fn packed_bytes(records: Seq<InstanceRaw>) -> Seq<u8> {
    native_bytes(packed_words(records))
}

/// An instance buffer's contents take `RECORD_SIZE` bytes for each record.
pub proof fn lemma_packed_bytes_len(records: Seq<InstanceRaw>)
    ensures
        packed_bytes(records).len() == RECORD_SIZE * records.len(),
{
}

/// Lays the records out as the contents of an instance buffer.
pub fn pack(records: &[InstanceRaw]) -> (bytes: Vec<u8>)
    ensures
        bytes@ == packed_bytes(records@),
        bytes@.len() == RECORD_SIZE * records@.len(),
{
    let mut words: Vec<u32> = Vec::new();
    let mut i: usize = 0;
    while i < records.len()
        invariant
            i <= records.len(),
            words@ == packed_words(records@.take(i as int)),
        decreases records.len() - i,
    {
        records[i].write_words(&mut words);
        i += 1;
    }
    words_to_bytes(words.as_slice())
}

} // verus!
