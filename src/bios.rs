use vstd::prelude::*;

use crate::fault::Fault;

verus! {

/// Size in bytes of the BIOS read-only memory.
pub const BIOS_SIZE: u32 = 524288;

/// Physical address at which the BIOS is mapped (the CPU's reset vector).
pub const BIOS_BASE: u32 = 0xbfc00000;

/// The little-endian reassembly of the four bytes of `s` starting at `off`.
pub open spec fn le_u32(s: Seq<u8>, off: int) -> u32 {
    (s[off] as int + 256 * s[off + 1] as int + 65536 * s[off + 2] as int + 16777216 * s[off
        + 3] as int) as u32
}

/// Whether the 4-byte word at `offset` lies inside a device of `len` bytes.
pub open spec fn word_fits(offset: u32, len: int) -> bool {
    offset as int + 4 <= len
}

/// The result of a 32-bit load at a device-local `offset` of the content `s`.
pub open spec fn device_load(s: Seq<u8>, offset: u32) -> Result<u32, Fault> {
    if word_fits(offset, s.len() as int) {
        Ok(le_u32(s, offset as int))
    } else {
        Err(Fault::OutOfBounds(offset))
    }
}

/// A load at any offset whose word fits in the device returns the
/// little-endian reassembly of the four bytes there; any other offset is an
/// out-of-bounds fault.
pub proof fn lemma_device_load_bounds(s: Seq<u8>, offset: u32)
    ensures
        offset as int <= s.len() - 4 ==> device_load(s, offset) == Ok::<u32, Fault>(
            le_u32(s, offset as int),
        ),
        offset as int > s.len() - 4 ==> device_load(s, offset) == Err::<u32, Fault>(
            Fault::OutOfBounds(offset),
        ),
{
}

/// A memory-mapped device: it answers 32-bit loads at offsets relative to
/// its own base, which the bus has already subtracted.
pub trait Device {
    /// The bytes that the device answers for, offset 0 first.
    spec fn contents(&self) -> Seq<u8>;

    /// Loads the little-endian word at a device-local `offset`; a word that
    /// does not fit entirely inside the device is an out-of-bounds fault.
    fn load32(&self, offset: u32) -> (r: Result<u32, Fault>)
        ensures
            r == device_load(self.contents(), offset),
    ;
}

/// The BIOS read-only memory: a fixed-size image, loaded once.
pub struct Bios {
    data: Vec<u8>,
}

impl View for Bios {
    type V = Seq<u8>;

    closed spec fn view(&self) -> Seq<u8> {
        self.data@
    }
}

impl Bios {
    /// A well-formed BIOS holds exactly `BIOS_SIZE` bytes.
    pub open spec fn wf(&self) -> bool {
        self@.len() == BIOS_SIZE
    }

    /// Builds the device from a complete image; an image of any other length
    /// than `BIOS_SIZE` is refused as corrupt.
    pub fn new(data: Vec<u8>) -> (r: Result<Bios, Fault>)
        ensures
            r is Ok <==> data@.len() == BIOS_SIZE,
            r matches Ok(b) ==> b@ == data@ && b.wf(),
            data@.len() != BIOS_SIZE ==> r == Err::<Bios, Fault>(
                Fault::CorruptImage(data@.len() as usize),
            ),
    {
        if data.len() != BIOS_SIZE as usize {
            return Err(Fault::CorruptImage(data.len()));
        }
        Ok(Bios { data })
    }
}

impl Device for Bios {
    open spec fn contents(&self) -> Seq<u8> {
        self@
    }

    fn load32(&self, offset: u32) -> (r: Result<u32, Fault>) {
        let len = self.data.len();
        let start = offset as usize;
        if len < 4 || start > len - 4 {
            return Err(Fault::OutOfBounds(offset));
        }
        let b0 = self.data[start] as u32;
        let b1 = self.data[start + 1] as u32;
        let b2 = self.data[start + 2] as u32;
        let b3 = self.data[start + 3] as u32;
        Ok(b0 + 256 * b1 + 65536 * b2 + 16777216 * b3)
    }
}

} // verus!
