//! The operand of the descriptor-table load instructions.

use vstd::prelude::*;

verus! {

/// Byte `index` of `value`, counted from the least significant one.
pub open spec fn byte_of(value: u64, index: nat) -> u8 {
    ((value >> (8 * index) as u64) & 0xff) as u8
}

/// The 16-bit value whose bytes, least significant first, are `b0` and `b1`.
pub open spec fn word_of(b0: u8, b1: u8) -> u16 {
    ((b1 as u16) << 8) | (b0 as u16)
}

/// The 64-bit value whose bytes, least significant first, are `b0` to `b7`.
pub open spec fn quad_of(b0: u8, b1: u8, b2: u8, b3: u8, b4: u8, b5: u8, b6: u8, b7: u8) -> u64 {
    ((b7 as u64) << 56) | ((b6 as u64) << 48) | ((b5 as u64) << 40) | ((b4 as u64) << 32) | ((b3 as u64)
        << 24) | ((b2 as u64) << 16) | ((b1 as u64) << 8) | (b0 as u64)
}

/// A pointer to a descriptor table, in the form that the table-load
/// instructions read from memory.
#[derive(Clone, Copy, Debug, PartialEq, Eq, Structural)]
pub struct DescriptorTablePointer {
    /// Size of the table in bytes, minus one.
    pub limit: u16,
    /// Linear address of the first byte of the table.
    pub base: u64,
}

impl DescriptorTablePointer {
    /// Number of bytes that the operand occupies in memory.
    pub const SIZE: usize = 10;

    /// The memory image of the operand: the limit in the first two bytes, the
    /// base in the eight that follow, each least significant byte first, with
    /// nothing in between.
    pub open spec fn layout(self) -> Seq<u8> {
        seq![
            byte_of(self.limit as u64, 0),
            byte_of(self.limit as u64, 1),
            byte_of(self.base, 0),
            byte_of(self.base, 1),
            byte_of(self.base, 2),
            byte_of(self.base, 3),
            byte_of(self.base, 4),
            byte_of(self.base, 5),
            byte_of(self.base, 6),
            byte_of(self.base, 7),
        ]
    }

    /// The pointer that the processor reads out of a ten-byte image.
    pub open spec fn parsed(image: Seq<u8>) -> DescriptorTablePointer
        recommends
            image.len() == 10,
    {
        DescriptorTablePointer {
            limit: word_of(image[0], image[1]),
            base: quad_of(
                image[2],
                image[3],
                image[4],
                image[5],
                image[6],
                image[7],
                image[8],
                image[9],
            ),
        }
    }

    /// Writes the operand out as the processor expects it in memory.
    pub fn to_bytes(&self) -> (image: [u8; 10])
        ensures
            image@ == self.layout(),
            image@.len() == 10,
            word_of(image@[0], image@[1]) == self.limit,
            quad_of(
                image@[2],
                image@[3],
                image@[4],
                image@[5],
                image@[6],
                image@[7],
                image@[8],
                image@[9],
            ) == self.base,
    {
        let limit: u64 = self.limit as u64;
        let base: u64 = self.base;
        let image: [u8; 10] = [
            byte(limit, 0),
            byte(limit, 1),
            byte(base, 0),
            byte(base, 1),
            byte(base, 2),
            byte(base, 3),
            byte(base, 4),
            byte(base, 5),
            byte(base, 6),
            byte(base, 7),
        ];
        proof {
            assert(image@ =~= self.layout());
            lemma_parse_of_layout(*self);
        }
        image
    }

    /// Reads an operand back from its memory image, as the processor does when
    /// it executes a table load.
    pub fn from_bytes(image: &[u8; 10]) -> (pointer: DescriptorTablePointer)
        ensures
            pointer == Self::parsed(image@),
            pointer.layout() == image@,
    {
        let limit: u16 = ((image[1] as u16) << 8) | (image[0] as u16);
        let base: u64 = ((image[9] as u64) << 56) | ((image[8] as u64) << 48) | ((image[7] as u64)
            << 40) | ((image[6] as u64) << 32) | ((image[5] as u64) << 24) | ((image[4] as u64)
            << 16) | ((image[3] as u64) << 8) | (image[2] as u64);
        let pointer = DescriptorTablePointer { limit, base };
        proof {
            lemma_layout_of_parse(image@);
        }
        pointer
    }
}

/// Byte `index` of `value`, counted from the least significant one.
fn byte(value: u64, index: u8) -> (b: u8)
    requires
        index < 8,
    ensures
        b == byte_of(value, index as nat),
{
    let shift: u64 = 8 * (index as u64);
    assert((value >> shift) & 0xff <= 0xff) by (bit_vector);
    ((value >> shift) & 0xff) as u8
}

/// Reading back the image of a pointer gives that pointer.
pub proof fn lemma_parse_of_layout(pointer: DescriptorTablePointer)
    ensures
        pointer.layout().len() == 10,
        DescriptorTablePointer::parsed(pointer.layout()) == pointer,
{
    let limit = pointer.limit;
    let base = pointer.base;
    assert(((((((limit as u64) >> 8u64) & 0xff) as u8) as u16) << 8) | (((((limit as u64) >> 0u64)
        & 0xff) as u8) as u16) == limit) by (bit_vector);
    assert(((((base >> 56u64) & 0xff) as u8 as u64) << 56) | ((((base >> 48u64) & 0xff) as u8 as u64)
        << 48) | ((((base >> 40u64) & 0xff) as u8 as u64) << 40) | ((((base >> 32u64) & 0xff) as u8 as u64)
        << 32) | ((((base >> 24u64) & 0xff) as u8 as u64) << 24) | ((((base >> 16u64) & 0xff) as u8 as u64)
        << 16) | ((((base >> 8u64) & 0xff) as u8 as u64) << 8) | (((base >> 0u64) & 0xff) as u8 as u64)
        == base) by (bit_vector);
}

/// The image of what is read from ten bytes is those ten bytes.
pub proof fn lemma_layout_of_parse(image: Seq<u8>)
    requires
        image.len() == 10,
    ensures
        DescriptorTablePointer::parsed(image).layout() == image,
{
    let pointer = DescriptorTablePointer::parsed(image);
    lemma_word_bytes(image[0], image[1]);
    lemma_quad_bytes(
        image[2],
        image[3],
        image[4],
        image[5],
        image[6],
        image[7],
        image[8],
        image[9],
    );
    assert(pointer.layout() =~= image);
}

proof fn lemma_word_bytes(b0: u8, b1: u8)
    ensures
        byte_of(word_of(b0, b1) as u64, 0) == b0,
        byte_of(word_of(b0, b1) as u64, 1) == b1,
{
    assert((((((b1 as u16) << 8) | (b0 as u16)) as u64 >> 0u64) & 0xff) as u8 == b0) by (bit_vector);
    assert((((((b1 as u16) << 8) | (b0 as u16)) as u64 >> 8u64) & 0xff) as u8 == b1) by (bit_vector);
}

proof fn lemma_quad_bytes(b0: u8, b1: u8, b2: u8, b3: u8, b4: u8, b5: u8, b6: u8, b7: u8)
    ensures
        byte_of(quad_of(b0, b1, b2, b3, b4, b5, b6, b7), 0) == b0,
        byte_of(quad_of(b0, b1, b2, b3, b4, b5, b6, b7), 1) == b1,
        byte_of(quad_of(b0, b1, b2, b3, b4, b5, b6, b7), 2) == b2,
        byte_of(quad_of(b0, b1, b2, b3, b4, b5, b6, b7), 3) == b3,
        byte_of(quad_of(b0, b1, b2, b3, b4, b5, b6, b7), 4) == b4,
        byte_of(quad_of(b0, b1, b2, b3, b4, b5, b6, b7), 5) == b5,
        byte_of(quad_of(b0, b1, b2, b3, b4, b5, b6, b7), 6) == b6,
        byte_of(quad_of(b0, b1, b2, b3, b4, b5, b6, b7), 7) == b7,
{
    let q = quad_of(b0, b1, b2, b3, b4, b5, b6, b7);
    assert(q == ((b7 as u64) << 56) | ((b6 as u64) << 48) | ((b5 as u64) << 40) | ((b4 as u64) << 32)
        | ((b3 as u64) << 24) | ((b2 as u64) << 16) | ((b1 as u64) << 8) | (b0 as u64));
    assert(((q >> 0u64) & 0xff) as u8 == b0 && ((q >> 8u64) & 0xff) as u8 == b1 && ((q >> 16u64)
        & 0xff) as u8 == b2 && ((q >> 24u64) & 0xff) as u8 == b3 && ((q >> 32u64) & 0xff) as u8 == b4
        && ((q >> 40u64) & 0xff) as u8 == b5 && ((q >> 48u64) & 0xff) as u8 == b6 && ((q >> 56u64)
        & 0xff) as u8 == b7) by (bit_vector)
        requires
            q == ((b7 as u64) << 56) | ((b6 as u64) << 48) | ((b5 as u64) << 40) | ((b4 as u64) << 32)
                | ((b3 as u64) << 24) | ((b2 as u64) << 16) | ((b1 as u64) << 8) | (b0 as u64),
    ;
}

} // verus!
