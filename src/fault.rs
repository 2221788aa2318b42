use vstd::prelude::*;

verus! {

/// The fatal conditions of the core: each halts execution and carries the
/// faulting value (address, offset, encoding or image length).
#[derive(Debug, Clone, Copy, PartialEq, Eq, Structural)]
pub enum Fault {
    /// No device claims the address.
    UnmappedAddress(u32),
    /// An instruction fetch from an address that is not a multiple of 4.
    MisalignedFetch(u32),
    /// A device-local offset whose 4-byte word does not fit in the device.
    OutOfBounds(u32),
    /// An encoding whose primary opcode has no handler, and the address it
    /// was fetched from.
    UnhandledInstruction { word: u32, pc: u32 },
    /// A ROM image whose length differs from the device's declared size.
    CorruptImage(usize),
}

} // verus!
