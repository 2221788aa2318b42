use psx_core::bios::{Bios, Device, BIOS_BASE, BIOS_SIZE};
use psx_core::cpu::{Cpu, RESET_VECTOR, SP_INIT};
use psx_core::fault::Fault;
use psx_core::instruction::Instruction;
use psx_core::interconnect::InterConnect;

const LUI_R8: u32 = 0x3c08_1234;
const LUI_R9: u32 = 0x3c09_abcd;

fn image_with(words: &[u32]) -> Vec<u8> {
    let mut data = vec![0u8; BIOS_SIZE as usize];
    for (i, w) in words.iter().enumerate() {
        data[4 * i..4 * i + 4].copy_from_slice(&w.to_le_bytes());
    }
    data
}

fn cpu_with(words: &[u32]) -> Cpu {
    let bios = Bios::new(image_with(words)).ok().expect("full-size image");
    Cpu::new(InterConnect::new(bios))
}

#[test]
fn reset_state() {
    let cpu = cpu_with(&[]);
    assert_eq!(cpu.pc(), 0xbfc0_0000);
    assert_eq!(RESET_VECTOR, 0xbfc0_0000);
    assert_eq!(cpu.regs(29), 0x801f_fff0);
    assert_eq!(SP_INIT, 0x801f_fff0);
    for i in 0..32 {
        if i != 29 {
            assert_eq!(cpu.regs(i), 0, "register {i}");
        }
    }
}

#[test]
fn register_write_then_read() {
    let mut cpu = cpu_with(&[]);
    for i in 1..32u32 {
        let v = 0x1000_0001u32.wrapping_mul(i) ^ 0xdead_beef;
        cpu.set_regs(i, v);
        assert_eq!(cpu.regs(i), v);
    }
    cpu.set_regs(31, u32::MAX);
    assert_eq!(cpu.regs(31), u32::MAX);
}

#[test]
fn register_zero_stays_zero() {
    let mut cpu = cpu_with(&[]);
    cpu.set_regs(0, 0xffff_ffff);
    assert_eq!(cpu.regs(0), 0);
    cpu.set_regs(5, 7);
    assert_eq!(cpu.regs(0), 0);
    assert_eq!(cpu.regs(5), 7);
}

#[test]
fn decode_fields() {
    let ins = Instruction(LUI_R8);
    assert_eq!(ins.function(), 0b001111);
    assert_eq!(ins.t(), 8);
    assert_eq!(ins.imm(), 0x1234);
    let all = Instruction(0xffff_ffff);
    assert_eq!(all.function(), 63);
    assert_eq!(all.t(), 31);
    assert_eq!(all.imm(), 0xffff);
}

#[test]
fn lui_sets_upper_half() {
    let mut cpu = cpu_with(&[LUI_R8]);
    assert_eq!(cpu.run_next_instruction(), Ok(()));
    assert_eq!(cpu.regs(8), 0x1234_0000);
    assert_eq!(cpu.pc(), 0xbfc0_0004);
    for i in 0..32 {
        let expected = match i {
            8 => 0x1234_0000,
            29 => SP_INIT,
            _ => 0,
        };
        assert_eq!(cpu.regs(i), expected, "register {i}");
    }
}

#[test]
fn lui_to_register_zero_has_no_effect() {
    let mut cpu = cpu_with(&[0x3c00_ffff]);
    assert_eq!(cpu.run_next_instruction(), Ok(()));
    assert_eq!(cpu.regs(0), 0);
    assert_eq!(cpu.pc(), 0xbfc0_0004);
}

#[test]
fn unhandled_opcode_is_a_fault() {
    let mut cpu = cpu_with(&[0xffff_ffff]);
    assert_eq!(
        cpu.run_next_instruction(),
        Err(Fault::UnhandledInstruction { word: 0xffff_ffff, pc: 0xbfc0_0000 })
    );
    assert_eq!(cpu.pc(), 0xbfc0_0004);
    assert_eq!(cpu.regs(29), SP_INIT);
    assert_eq!(cpu.regs(31), 0);
}

#[test]
fn run_stops_at_first_fault() {
    let mut cpu = cpu_with(&[LUI_R8, LUI_R9]);
    assert_eq!(
        cpu.run(10),
        Err(Fault::UnhandledInstruction { word: 0, pc: 0xbfc0_0008 })
    );
    assert_eq!(cpu.regs(8), 0x1234_0000);
    assert_eq!(cpu.regs(9), 0xabcd_0000);
    assert_eq!(cpu.pc(), 0xbfc0_000c);
}

#[test]
fn run_zero_steps_changes_nothing() {
    let mut cpu = cpu_with(&[LUI_R8]);
    assert_eq!(cpu.run(0), Ok(()));
    assert_eq!(cpu.pc(), RESET_VECTOR);
    assert_eq!(cpu.regs(8), 0);
}

#[test]
fn same_program_same_state() {
    let program = [LUI_R8, LUI_R9, 0x3c1f_0001, 0x3c08_5555];
    let mut a = cpu_with(&program);
    let mut b = cpu_with(&program);
    assert_eq!(a.run(4), Ok(()));
    assert_eq!(b.run(4), Ok(()));
    assert_eq!(a.pc(), b.pc());
    for i in 0..32 {
        assert_eq!(a.regs(i), b.regs(i), "register {i}");
    }
    assert_eq!(a.regs(8), 0x5555_0000);
    assert_eq!(a.regs(31), 0x0001_0000);
    assert_eq!(a.load32(BIOS_BASE), b.load32(BIOS_BASE));
    assert_eq!(a.load32(BIOS_BASE), Ok(LUI_R8));
}

#[test]
fn bios_load_is_little_endian() {
    let mut data = vec![0u8; BIOS_SIZE as usize];
    data[4..8].copy_from_slice(&[0x78, 0x56, 0x34, 0x12]);
    let last = BIOS_SIZE as usize - 4;
    data[last..].copy_from_slice(&[0x01, 0x02, 0x03, 0x04]);
    let bios = Bios::new(data).ok().expect("full-size image");
    assert_eq!(bios.load32(4), Ok(0x1234_5678));
    assert_eq!(bios.load32(5), Ok(0x0012_3456));
    assert_eq!(bios.load32(BIOS_SIZE - 4), Ok(0x0403_0201));
    assert_eq!(bios.load32(0), Ok(0));
}

#[test]
fn bios_load_out_of_bounds() {
    let bios = Bios::new(image_with(&[])).ok().expect("full-size image");
    assert_eq!(bios.load32(BIOS_SIZE - 3), Err(Fault::OutOfBounds(BIOS_SIZE - 3)));
    assert_eq!(bios.load32(BIOS_SIZE), Err(Fault::OutOfBounds(BIOS_SIZE)));
    assert_eq!(bios.load32(u32::MAX), Err(Fault::OutOfBounds(u32::MAX)));
}

#[test]
fn corrupt_image_is_refused() {
    let short = Bios::new(vec![0u8; BIOS_SIZE as usize - 1]);
    assert!(matches!(short, Err(Fault::CorruptImage(n)) if n == BIOS_SIZE as usize - 1));
    let long = Bios::new(vec![0u8; BIOS_SIZE as usize + 1]);
    assert!(matches!(long, Err(Fault::CorruptImage(n)) if n == BIOS_SIZE as usize + 1));
    let empty = Bios::new(Vec::new());
    assert!(matches!(empty, Err(Fault::CorruptImage(0))));
    assert!(Bios::new(vec![0u8; BIOS_SIZE as usize]).is_ok());
}

#[test]
fn bus_routes_to_bios() {
    let bios = Bios::new(image_with(&[1, 2, 0xcafe_f00d])).ok().expect("full-size image");
    let bus = InterConnect::new(bios);
    assert_eq!(bus.load32(0xbfc0_0000), Ok(1));
    assert_eq!(bus.load32(0xbfc0_0008), Ok(0xcafe_f00d));
    assert_eq!(bus.load32(0xbfc7_fffc), Ok(0));
}

#[test]
fn bus_faults() {
    let bus = InterConnect::new(Bios::new(image_with(&[])).ok().expect("full-size image"));
    assert_eq!(bus.load32(0xbfc8_0000), Err(Fault::UnmappedAddress(0xbfc8_0000)));
    assert_eq!(bus.load32(0xbfbf_fffc), Err(Fault::UnmappedAddress(0xbfbf_fffc)));
    assert_eq!(bus.load32(0), Err(Fault::UnmappedAddress(0)));
    assert_eq!(bus.load32(u32::MAX), Err(Fault::UnmappedAddress(u32::MAX)));
    assert_eq!(bus.load32(0xbfc7_fffd), Err(Fault::OutOfBounds(0x7fffd)));
    assert_eq!(bus.load32(0xbfc7_ffff), Err(Fault::OutOfBounds(0x7ffff)));
}

#[test]
fn fetch_from_unmapped_address_is_a_fault() {
    // Run off the end of a ROM full of LUI instructions.
    let words = vec![LUI_R8; BIOS_SIZE as usize / 4];
    let mut cpu = cpu_with(&words);
    assert_eq!(cpu.run(BIOS_SIZE as u64 / 4), Ok(()));
    assert_eq!(cpu.pc(), 0xbfc8_0000);
    assert_eq!(cpu.run_next_instruction(), Err(Fault::UnmappedAddress(0xbfc8_0000)));
    assert_eq!(cpu.pc(), 0xbfc8_0000);
}
