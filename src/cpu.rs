use vstd::prelude::*;

use crate::bios::BIOS_BASE;
use crate::fault::Fault;
use crate::instruction::{imm_of, opcode_of, rt_of, Instruction};
use crate::interconnect::{bus_load, InterConnect};

verus! {

/// Address of the first instruction executed after reset: the start of the BIOS.
pub const RESET_VECTOR: u32 = 0xbfc00000;

/// Initial value of the stack pointer (register 29).
pub const SP_INIT: u32 = 0x801ffff0;

/// Primary opcode of `LUI` (load upper immediate).
pub const OP_LUI: u32 = 0x0f;

/// The register file right after reset: register 29 holds `SP_INIT`, all
/// others hold 0.
pub open spec fn reset_regs() -> Seq<u32> {
    Seq::new(32, |i: int| if i == 29 { SP_INIT } else { 0u32 })
}

/// The register file `regs` after writing `v` to register `i`: register 0
/// stays hardwired to zero.
pub open spec fn write_reg(regs: Seq<u32>, i: u32, v: u32) -> Seq<u32> {
    regs.update(i as int, v).update(0, 0u32)
}

/// The value that `LUI` with encoding `w` loads: its immediate in the upper
/// half, zeros in the lower half.
pub open spec fn lui_value(w: u32) -> u32 {
    imm_of(w) << 16u32
}

/// The address that follows `pc` (32-bit wrap-around).
pub open spec fn next_pc(pc: u32) -> u32 {
    ((pc as int + 4) % 0x1_0000_0000) as u32
}

/// The register file after executing encoding `w` (fetched from `pc`) on
/// `regs`, or the fault if its opcode has no handler.
pub open spec fn execute(regs: Seq<u32>, w: u32, pc: u32) -> Result<Seq<u32>, Fault> {
    if opcode_of(w) == OP_LUI {
        Ok(write_reg(regs, rt_of(w), lui_value(w)))
    } else {
        Err(Fault::UnhandledInstruction { word: w, pc })
    }
}

/// One fetch-decode-execute step from program counter `pc` and registers
/// `regs` on a bus whose BIOS holds `rom`: the next program counter, the next
/// registers, and the fault that halted the step, if any. A fetch that
/// fails leaves the state as it was; an unhandled opcode is found after the
/// program counter has advanced.
pub open spec fn step(pc: u32, regs: Seq<u32>, rom: Seq<u8>) -> (u32, Seq<u32>, Option<Fault>) {
    if pc % 4 != 0 {
        (pc, regs, Some(Fault::MisalignedFetch(pc)))
    } else {
        match bus_load(rom, pc) {
            Err(f) => (pc, regs, Some(f)),
            Ok(w) => match execute(regs, w, pc) {
                Ok(r) => (next_pc(pc), r, None),
                Err(f) => (next_pc(pc), regs, Some(f)),
            },
        }
    }
}

/// `n` steps from `pc` and `regs`, stopping at the first fault.
pub open spec fn run_steps(pc: u32, regs: Seq<u32>, rom: Seq<u8>, n: nat) -> (
    u32,
    Seq<u32>,
    Option<Fault>,
)
    decreases n,
{
    if n == 0 {
        (pc, regs, None)
    } else {
        let (p, r, f) = step(pc, regs, rom);
        if f is Some {
            (p, r, f)
        } else {
            run_steps(p, r, rom, (n - 1) as nat)
        }
    }
}

/// The fault carried by `r`, if any.
pub open spec fn fault_of(r: Result<(), Fault>) -> Option<Fault> {
    match r {
        Ok(_) => None,
        Err(f) => Some(f),
    }
}

/// Writing `v` to any register but 0 and reading it back gives `v`; register
/// 0 reads zero after any write, to itself included.
pub proof fn lemma_write_then_read(regs: Seq<u32>, i: u32, v: u32)
    requires
        regs.len() == 32,
        i < 32,
    ensures
        write_reg(regs, i, v).len() == 32,
        1 <= i ==> write_reg(regs, i, v)[i as int] == v,
        write_reg(regs, i, v)[0] == 0,
        forall|j: int| 1 <= j < 32 && j != i ==> write_reg(regs, i, v)[j] == regs[j],
{
}

/// After reset the program counter is the reset vector, register 29 holds
/// `SP_INIT` and every other register holds zero.
pub proof fn lemma_reset_state()
    ensures
        reset_regs().len() == 32,
        reset_regs()[29] == SP_INIT,
        forall|i: int| 0 <= i < 32 && i != 29 ==> reset_regs()[i] == 0,
        RESET_VECTOR == BIOS_BASE,
        RESET_VECTOR % 4 == 0,
{
}

/// Execution is deterministic: the same number of steps from the same
/// program counter, registers and memory ends in the same program counter,
/// registers and fault.
pub proof fn lemma_run_deterministic(
    pc1: u32,
    regs1: Seq<u32>,
    rom1: Seq<u8>,
    pc2: u32,
    regs2: Seq<u32>,
    rom2: Seq<u8>,
    n: nat,
)
    requires
        pc1 == pc2,
        regs1 == regs2,
        rom1 == rom2,
    ensures
        run_steps(pc1, regs1, rom1, n) == run_steps(pc2, regs2, rom2, n),
{
}

/// The CPU core: program counter, 32 general-purpose registers, and the bus.
pub struct Cpu {
    pc: u32,
    registers: [u32; 32],
    inter: InterConnect,
}

impl Cpu {
    /// The program counter.
    pub closed spec fn pc_view(&self) -> u32 {
        self.pc
    }

    /// The register file, indexed 0 to 31.
    pub closed spec fn regs_view(&self) -> Seq<u32> {
        self.registers@
    }

    /// The content of the BIOS behind the bus.
    pub closed spec fn rom(&self) -> Seq<u8> {
        self.inter.rom()
    }

    /// The register file has 32 entries, register 0 holds zero, and the
    /// program counter is 4-byte aligned.
    pub open spec fn wf(&self) -> bool {
        &&& self.regs_view().len() == 32
        &&& self.regs_view()[0] == 0
        &&& self.pc_view() % 4 == 0
    }

    /// The CPU in its reset state, attached to `inter`.
    pub fn new(inter: InterConnect) -> (r: Cpu)
        ensures
            r.pc_view() == RESET_VECTOR,
            r.regs_view() == reset_regs(),
            r.regs_view()[29] == SP_INIT,
            forall|i: int| 0 <= i < 32 && i != 29 ==> r.regs_view()[i] == 0,
            r.rom() == inter.rom(),
            r.wf(),
    {
        let mut registers = [0u32; 32];
        registers[29] = SP_INIT;
        let r = Cpu { pc: RESET_VECTOR, registers, inter };
        assert(r.regs_view() =~= reset_regs());
        r
    }

    /// The program counter.
    pub fn pc(&self) -> (r: u32)
        ensures
            r == self.pc_view(),
    {
        self.pc
    }

    /// Reads register `index`.
    pub fn regs(&self, index: u32) -> (r: u32)
        requires
            index < 32,
        ensures
            r == self.regs_view()[index as int],
    {
        self.registers[index as usize]
    }

    /// Writes `value` to register `index`; a write to register 0 has no effect.
    pub fn set_regs(&mut self, index: u32, value: u32)
        requires
            index < 32,
        ensures
            final(self).regs_view() == write_reg(old(self).regs_view(), index, value),
            final(self).pc_view() == old(self).pc_view(),
            final(self).rom() == old(self).rom(),
            old(self).wf() ==> final(self).wf(),
    {
        self.registers[index as usize] = value;
        self.registers[0] = 0;
    }

    /// Loads the 32-bit word at physical address `addr` through the bus.
    pub fn load32(&self, addr: u32) -> (r: Result<u32, Fault>)
        ensures
            r == bus_load(self.rom(), addr),
    {
        self.inter.load32(addr)
    }

    /// Executes one instruction: fetches the word at the program counter,
    /// advances the program counter by 4, then decodes and executes the word.
    pub fn run_next_instruction(&mut self) -> (r: Result<(), Fault>)
        ensures
            step(old(self).pc_view(), old(self).regs_view(), old(self).rom()) == (
                final(self).pc_view(),
                final(self).regs_view(),
                fault_of(r),
            ),
            final(self).rom() == old(self).rom(),
            old(self).wf() ==> final(self).wf(),
    {
        let pc = self.pc;
        if pc % 4 != 0 {
            return Err(Fault::MisalignedFetch(pc));
        }
        let word = match self.load32(pc) {
            Ok(w) => w,
            Err(f) => return Err(f),
        };
        self.pc = pc.wrapping_add(4);
        self.decode_and_execute(Instruction(word), pc)
    }

    /// Executes up to `steps` instructions, stopping at the first fault.
    pub fn run(&mut self, steps: u64) -> (r: Result<(), Fault>)
        ensures
            run_steps(old(self).pc_view(), old(self).regs_view(), old(self).rom(), steps as nat)
                == (final(self).pc_view(), final(self).regs_view(), fault_of(r)),
            final(self).rom() == old(self).rom(),
            old(self).wf() ==> final(self).wf(),
    {
        let mut left: u64 = steps;
        while left > 0
            invariant
                run_steps(old(self).pc_view(), old(self).regs_view(), old(self).rom(), steps as nat)
                    == run_steps(self.pc_view(), self.regs_view(), self.rom(), left as nat),
                self.rom() == old(self).rom(),
                old(self).wf() ==> self.wf(),
            decreases left,
        {
            match self.run_next_instruction() {
                Ok(()) => {},
                Err(f) => return Err(f),
            }
            left = left - 1;
        }
        Ok(())
    }

    /// Dispatches `instruction`, fetched from `pc`, on its primary opcode.
    fn decode_and_execute(&mut self, instruction: Instruction, pc: u32) -> (r: Result<(), Fault>)
        ensures
            match execute(old(self).regs_view(), instruction.0, pc) {
                Ok(regs) => r is Ok && final(self).regs_view() == regs,
                Err(f) => r == Err::<(), Fault>(f) && final(self).regs_view() == old(
                    self,
                ).regs_view(),
            },
            final(self).pc_view() == old(self).pc_view(),
            final(self).rom() == old(self).rom(),
            old(self).wf() ==> final(self).wf(),
    {
        match instruction.function() {
            OP_LUI => {
                self.op_lui(instruction);
                Ok(())
            },
            _ => Err(Fault::UnhandledInstruction { word: instruction.0, pc }),
        }
    }

    /// `LUI`: loads the immediate into the upper half of the target register.
    fn op_lui(&mut self, instruction: Instruction)
        ensures
            final(self).regs_view() == write_reg(
                old(self).regs_view(),
                rt_of(instruction.0),
                lui_value(instruction.0),
            ),
            final(self).pc_view() == old(self).pc_view(),
            final(self).rom() == old(self).rom(),
            old(self).wf() ==> final(self).wf(),
    {
        let i = instruction.imm();
        let t = instruction.t();
        let v = i << 16;
        self.set_regs(t, v);
    }
}

} // verus!
