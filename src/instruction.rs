use vstd::prelude::*;

verus! {

/// Primary opcode field (bits 31..26) of the encoding `w`.
pub open spec fn opcode_of(w: u32) -> u32 {
    w >> 26u32
}

/// Target register field (bits 20..16) of the encoding `w`.
pub open spec fn rt_of(w: u32) -> u32 {
    (w >> 16u32) & 0x1fu32
}

/// 16-bit immediate field (bits 15..0) of the encoding `w`.
pub open spec fn imm_of(w: u32) -> u32 {
    w & 0xffffu32
}

/// A raw 32-bit instruction encoding; its fields are decoded on demand.
pub struct Instruction(pub u32);

impl Instruction {
    /// The primary opcode, in `0..64`.
    #[inline]
    pub fn function(&self) -> (r: u32)
        ensures
            r == opcode_of(self.0),
            r < 64,
    {
        let w = self.0;
        assert(w >> 26u32 < 64u32) by (bit_vector);
        w >> 26
    }

    /// The target register index, in `0..32`.
    #[inline]
    pub fn t(&self) -> (r: u32)
        ensures
            r == rt_of(self.0),
            r < 32,
    {
        let w = self.0;
        assert((w >> 16u32) & 0x1fu32 < 32u32) by (bit_vector);
        (w >> 16) & 0x1f
    }

    /// The 16-bit immediate, zero-extended.
    #[inline]
    pub fn imm(&self) -> (r: u32)
        ensures
            r == imm_of(self.0),
            r < 65536,
    {
        let w = self.0;
        assert(w & 0xffffu32 < 65536u32) by (bit_vector);
        w & 0xffff
    }
}

} // verus!
