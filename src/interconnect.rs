use vstd::prelude::*;

use crate::bios::{device_load, le_u32, Bios, Device, BIOS_BASE, BIOS_SIZE};
use crate::fault::Fault;

verus! {

/// Whether `addr` lies in the BIOS range `[BIOS_BASE, BIOS_BASE + BIOS_SIZE)`.
pub open spec fn in_bios_range(addr: u32) -> bool {
    BIOS_BASE <= addr && (addr as int) < BIOS_BASE as int + BIOS_SIZE as int
}

/// The result of a 32-bit load at physical address `addr`, on a bus whose
/// BIOS holds `rom`: routed to the device that claims the address, with the
/// address translated to an offset from the device's base.
pub open spec fn bus_load(rom: Seq<u8>, addr: u32) -> Result<u32, Fault> {
    if in_bios_range(addr) {
        device_load(rom, (addr - BIOS_BASE) as u32)
    } else {
        Err(Fault::UnmappedAddress(addr))
    }
}

/// On a bus whose only device is a well-formed BIOS, an address whose word
/// fits in the BIOS range loads from the BIOS at its offset from the base, an
/// address in the range's last three bytes is an out-of-bounds fault, and an
/// address outside the range is unmapped.
pub proof fn lemma_single_device_routing(rom: Seq<u8>, addr: u32)
    requires
        rom.len() == BIOS_SIZE,
    ensures
        BIOS_BASE <= addr <= BIOS_BASE + BIOS_SIZE - 4 ==> bus_load(rom, addr) == Ok::<
            u32,
            Fault,
        >(le_u32(rom, addr - BIOS_BASE)),
        BIOS_BASE + BIOS_SIZE - 4 < addr < BIOS_BASE + BIOS_SIZE ==> bus_load(rom, addr) == Err::<
            u32,
            Fault,
        >(Fault::OutOfBounds((addr - BIOS_BASE) as u32)),
        !(BIOS_BASE <= addr < BIOS_BASE + BIOS_SIZE) ==> bus_load(rom, addr) == Err::<u32, Fault>(
            Fault::UnmappedAddress(addr),
        ),
{
}

/// The address router: owns every device and dispatches each access to the
/// device whose range contains the address.
pub struct InterConnect {
    bios: Bios,
}

impl InterConnect {
    /// The content of the BIOS that the bus owns.
    pub closed spec fn rom(&self) -> Seq<u8> {
        self.bios@
    }

    /// Builds the bus around its devices.
    pub fn new(bios: Bios) -> (r: InterConnect)
        ensures
            r.rom() == bios@,
    {
        InterConnect { bios }
    }

    /// Loads the 32-bit word at physical address `addr` from the device
    /// that claims it; an address that no device claims is a fault.
    pub fn load32(&self, addr: u32) -> (r: Result<u32, Fault>)
        ensures
            r == bus_load(self.rom(), addr),
    {
        if BIOS_BASE <= addr && addr - BIOS_BASE < BIOS_SIZE {
            return self.bios.load32(addr - BIOS_BASE);
        }
        Err(Fault::UnmappedAddress(addr))
    }
}

} // verus!
