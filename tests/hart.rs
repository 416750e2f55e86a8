use emulator::cpu::PrivilegeLevel;
use emulator::csr::{CsrID, SupportedCsrID};
use emulator::error::EmulatorError;
use emulator::instructions::{Destination, Instruction, Instruction16, Instruction32};
use emulator::mem::{MemMap, Memory, DRAM_BASE, UART_BASE};
use emulator::raw_instructions::{
    find_instruction32_desc, instruction_at, set_instructions_funcs, try_find_instruction32_desc,
    Instruction32Format, Mnemonic, INSTRUCTION_COUNT,
};
use emulator::reg::Reg;
use emulator::vm::{RunExit, VM};

fn program(words: &[u32]) -> Vec<u8> {
    let mut bytes = Vec::new();
    for w in words {
        bytes.extend_from_slice(&w.to_le_bytes());
    }
    bytes
}

const ADDI_X5_X0_42: u32 = 0x02A0_0293;
const BEQ_X1_X2_8: u32 = 0x0020_8463;
const SW_X2_0_X1: u32 = 0x0020_A023;
const LW_X3_0_X1: u32 = 0x0000_A183;
const CSRRW_X0_MSCRATCH_X1: u32 = 0x3400_9073;
const CSRRS_X2_MSCRATCH_X0: u32 = 0x3400_2173;

#[test]
fn addi_sets_register_and_advances_pc() {
    let registry = set_instructions_funcs();
    let mut vm = VM::new(program(&[ADDI_X5_X0_42]));
    assert_eq!(vm.step(&registry), Ok(true));
    assert_eq!(vm.read_reg(Reg::t0), 42);
    assert_eq!(vm.cpu.pc, DRAM_BASE + 4);
}

#[test]
fn taken_branch_moves_pc_by_offset() {
    let registry = set_instructions_funcs();
    let mut vm = VM::new(program(&[BEQ_X1_X2_8]));
    vm.write_reg(Reg::ra, 5);
    vm.write_reg(Reg::sp, 5);
    assert_eq!(vm.step(&registry), Ok(true));
    assert_eq!(vm.cpu.pc, DRAM_BASE + 8);
}

#[test]
fn untaken_branch_advances_pc() {
    let registry = set_instructions_funcs();
    let mut vm = VM::new(program(&[BEQ_X1_X2_8]));
    vm.write_reg(Reg::ra, 5);
    vm.write_reg(Reg::sp, 6);
    assert_eq!(vm.step(&registry), Ok(true));
    assert_eq!(vm.cpu.pc, DRAM_BASE + 4);
}

#[test]
fn store_then_load_word_round_trips() {
    let registry = set_instructions_funcs();
    let mut vm = VM::new(program(&[SW_X2_0_X1, LW_X3_0_X1]));
    vm.write_reg(Reg::ra, DRAM_BASE + 0x100);
    vm.write_reg(Reg::sp, 0xdead_beef);
    assert_eq!(vm.step(&registry), Ok(true));
    assert_eq!(vm.step(&registry), Ok(true));
    // lw sign-extends bit 31
    assert_eq!(vm.read_reg(Reg::gp), 0xFFFF_FFFF_DEAD_BEEF);
    assert_eq!(vm.mem.get(DRAM_BASE + 0x100, 4), Ok(0xdead_beef));
}

#[test]
fn unused_opcode_is_invalid() {
    let registry = set_instructions_funcs();
    let word = 0x0000_007F;
    assert_eq!(
        try_find_instruction32_desc(&registry, Instruction32(word)),
        Err(EmulatorError::InvalidOpcode)
    );
    let mut vm = VM::new(program(&[word]));
    assert_eq!(vm.step(&registry), Err(EmulatorError::InvalidOpcode));
    assert_eq!(vm.cpu.pc, DRAM_BASE);
}

#[test]
fn csrrw_then_read_returns_written_value() {
    let registry = set_instructions_funcs();
    let mut vm = VM::new(program(&[CSRRW_X0_MSCRATCH_X1, CSRRS_X2_MSCRATCH_X0]));
    vm.write_reg(Reg::ra, 0x7);
    assert_eq!(vm.step(&registry), Ok(true));
    assert_eq!(vm.read_csr(0x340), 0x7);
    assert_eq!(vm.step(&registry), Ok(true));
    assert_eq!(vm.read_reg(Reg::sp), 0x7);
}

#[test]
fn every_unshadowed_mask_decodes_to_its_row() {
    let registry = set_instructions_funcs();
    for i in 0..INSTRUCTION_COUNT {
        let d = instruction_at(i);
        let found = try_find_instruction32_desc(&registry, Instruction32(d.mask.0)).unwrap();
        let expected = match d.name {
            Mnemonic::Ebreak => Mnemonic::Ecall,
            m => m,
        };
        assert_eq!(found.name, expected);
        assert_eq!(found.format, d.format);
    }
}

#[test]
fn i_format_ignores_funct7_but_r_format_does_not() {
    let registry = set_instructions_funcs();
    // addi x1, x0, 32: funct7 field is 1
    let d = try_find_instruction32_desc(&registry, Instruction32(0x0200_0093)).unwrap();
    assert_eq!(d.name, Mnemonic::Addi);
    // add with funct7 = 1
    assert_eq!(
        try_find_instruction32_desc(&registry, Instruction32(0x0200_0033)),
        Err(EmulatorError::UnknownInstruction)
    );
    // sub
    let d = try_find_instruction32_desc(&registry, Instruction32(0x4000_0033)).unwrap();
    assert_eq!(d.name, Mnemonic::Sub);
    assert_eq!(find_instruction32_desc(&registry, Instruction32(0x4000_0033)).format, Instruction32Format::R);
}

#[test]
fn immediates_have_their_shape() {
    let all = Instruction32(0xFFFF_FFFF);
    assert_eq!(all.parse_b().0, 0x1FFE);
    assert_eq!(all.parse_j().0, 0x1F_FFFE);
    assert_eq!(all.parse_u().0, 0xFFFF_F000);
    assert_eq!(all.parse_i().0, 0xFFF);
    assert_eq!(all.parse_s().0, 0xFFF);
    assert_eq!(Instruction32(BEQ_X1_X2_8).parse_b().0, 8);
    for w in [0x1234_5678u32, 0x8765_4321, 0xDEAD_BEEF, 0x0000_0FFF] {
        let i = Instruction32(w);
        assert_eq!(i.parse_b().0 % 2, 0);
        assert_eq!(i.parse_j().0 % 2, 0);
        assert_eq!(i.parse_u().0 % 0x1000, 0);
    }
}

#[test]
fn fields_of_a_word() {
    let i = Instruction32(ADDI_X5_X0_42);
    assert_eq!(i.opcode(), 0b0010011);
    assert_eq!(i.rd(), Reg::t0);
    assert_eq!(i.rs1(), Reg::zero);
    assert_eq!(i.fun3(), 0);
    assert_eq!(i.parse_i(), (42, Reg::zero, Reg::t0));
    let r = Instruction32(0x4031_02B3); // sub x5, x2, x3
    assert_eq!(r.parse_r(), (Reg::sp, Reg::gp, Reg::t0));
    assert_eq!(r.fun7(), 0x20);
}

#[test]
fn operand_slots_follow_the_format() {
    let registry = set_instructions_funcs();
    let i = Instruction32(ADDI_X5_X0_42);
    assert_eq!(i.format(&registry), Instruction32Format::I);
    assert_eq!(i.destination(&registry), Destination::CpuRegister(Reg::t0));
    assert_eq!(i.s1(&registry), (Destination::CpuRegister(Reg::zero), true));
    assert_eq!(i.s2(&registry), Destination::Immediate(42));
    assert_eq!(i.auto_imm(&registry), 42);
    let b = Instruction32(BEQ_X1_X2_8);
    assert_eq!(b.destination(&registry), Destination::Immediate(8));
    assert_eq!(b.s2(&registry), Destination::CpuRegister(Reg::sp));
    let s = Instruction32(0x0020_A223); // sw x2, 4(x1)
    assert_eq!(s.destination(&registry), Destination::Immediate(4));
    let u = Instruction32(0x1234_5537); // lui x10, 0x12345
    assert_eq!(u.s1(&registry), (Destination::Immediate(0x1234_5000), false));
    assert_eq!(u.s2(&registry), Destination::Immediate(0));
}

#[test]
fn writes_to_register_zero_are_discarded() {
    let registry = set_instructions_funcs();
    // addi x0, x0, 5
    let mut vm = VM::new(program(&[0x0050_0013]));
    assert_eq!(vm.step(&registry), Ok(true));
    assert_eq!(vm.read_reg(Reg::zero), 0);
}

#[test]
fn run_stops_at_zero_word() {
    let registry = set_instructions_funcs();
    let mut vm = VM::new(program(&[ADDI_X5_X0_42, ADDI_X5_X0_42]));
    assert_eq!(vm.run(&registry, 100), Ok(RunExit::Halted));
    assert_eq!(vm.cpu.pc, DRAM_BASE + 8);
    let mut vm = VM::new(program(&[ADDI_X5_X0_42, ADDI_X5_X0_42]));
    assert_eq!(vm.run(&registry, 1), Ok(RunExit::StepLimit));
    assert_eq!(vm.cpu.pc, DRAM_BASE + 4);
}

#[test]
fn error_kinds() {
    let registry = set_instructions_funcs();
    // lw x3, 0(x1) with x1 = 0: unmapped
    let mut vm = VM::new(program(&[LW_X3_0_X1]));
    assert_eq!(vm.step(&registry), Err(EmulatorError::OutOfBoundsAccess));
    // csrrs x2, mscratch, x1
    let mut vm = VM::new(program(&[0x3400_A173]));
    assert_eq!(vm.step(&registry), Err(EmulatorError::UnsupportedCsrOperation));
    // csrrwi
    let mut vm = VM::new(program(&[0x3400_5173]));
    assert_eq!(vm.step(&registry), Err(EmulatorError::UnsupportedCsrOperation));
    // ecall
    let mut vm = VM::new(program(&[0x0000_0073]));
    assert_eq!(vm.step(&registry), Err(EmulatorError::UnhandledTrap));
    // SYSTEM immediate 5
    let mut vm = VM::new(program(&[0x0050_0073]));
    assert_eq!(vm.step(&registry), Err(EmulatorError::UnknownInstruction));
    // jal x0, -4 at pc 0
    let mut vm = VM::new(Vec::new());
    vm.cpu.pc = 0;
    let jal = Instruction32(0xFFDF_F06F);
    let d = find_instruction32_desc(&registry, jal);
    assert_eq!(d.name, Mnemonic::Jal);
    assert_eq!(vm.execute(d, jal), Err(EmulatorError::ArithmeticOverflow));
    assert_eq!(vm.cpu.pc, 0);
    // past the end of memory
    let mut vm = VM::new(Vec::new());
    vm.cpu.pc = 0;
    assert_eq!(vm.step(&registry), Err(EmulatorError::OutOfBoundsAccess));
}

#[test]
fn jumps_link_and_land() {
    let registry = set_instructions_funcs();
    // jal x1, +8
    let mut vm = VM::new(program(&[0x0080_00EF]));
    assert_eq!(vm.step(&registry), Ok(true));
    assert_eq!(vm.read_reg(Reg::ra), DRAM_BASE + 4);
    assert_eq!(vm.cpu.pc, DRAM_BASE + 8);
    // jalr x0, 16(x1)
    let mut vm = VM::new(program(&[0x0100_8067]));
    vm.write_reg(Reg::ra, DRAM_BASE + 0x40);
    assert_eq!(vm.step(&registry), Ok(true));
    assert_eq!(vm.cpu.pc, DRAM_BASE + 0x50);
    // auipc x10, 1
    let mut vm = VM::new(program(&[0x0000_1517]));
    assert_eq!(vm.step(&registry), Ok(true));
    assert_eq!(vm.read_reg(Reg::a0), DRAM_BASE + 0x1000);
    // lui x10, 0x80000: sign-extended
    let mut vm = VM::new(program(&[0x8000_0537]));
    assert_eq!(vm.step(&registry), Ok(true));
    assert_eq!(vm.read_reg(Reg::a0), 0xFFFF_FFFF_8000_0000);
}

#[test]
fn arithmetic_results() {
    let registry = set_instructions_funcs();
    let cases: [(u32, u64, u64, u64); 8] = [
        (0x0020_81B3, 7, 9, 16),                      // add x3, x1, x2
        (0x4020_81B3, 7, 9, 0xFFFF_FFFF_FFFF_FFFE),   // sub
        (0x0020_A1B3, 0xFFFF_FFFF_FFFF_FFFF, 1, 1),   // slt: -1 < 1
        (0x0020_B1B3, 0xFFFF_FFFF_FFFF_FFFF, 1, 0),   // sltu
        (0x4020_D1B3, 0x8000_0000_0000_0000, 4, 0xF800_0000_0000_0000), // sra
        (0x0020_D1B3, 0x8000_0000_0000_0000, 4, 0x0800_0000_0000_0000), // srl
        (0x0020_91B3, 1, 65, 2),                      // sll uses the low 6 bits
        (0x0020_81BB, 0x7FFF_FFFF, 1, 0xFFFF_FFFF_8000_0000), // addw
    ];
    for (word, a, b, expected) in cases {
        let mut vm = VM::new(program(&[word]));
        vm.write_reg(Reg::ra, a);
        vm.write_reg(Reg::sp, b);
        assert_eq!(vm.step(&registry), Ok(true));
        assert_eq!(vm.read_reg(Reg::gp), expected, "word {word:#x}");
    }
    // addi x3, x1, -1
    let mut vm = VM::new(program(&[0xFFF0_8193]));
    vm.write_reg(Reg::ra, 10);
    assert_eq!(vm.step(&registry), Ok(true));
    assert_eq!(vm.read_reg(Reg::gp), 9);
}

#[test]
fn byte_loads_extend_per_mnemonic() {
    let registry = set_instructions_funcs();
    // lb x3, 8(x0+x1) then lbu x4, 8(x1)
    let mut vm = VM::new(program(&[0x0080_8183, 0x0080_C203, 0x0000_0080]));
    vm.write_reg(Reg::ra, DRAM_BASE);
    assert_eq!(vm.step(&registry), Ok(true));
    assert_eq!(vm.read_reg(Reg::gp), 0xFFFF_FFFF_FFFF_FF80);
    assert_eq!(vm.step(&registry), Ok(true));
    assert_eq!(vm.read_reg(Reg::tp), 0x80);
}

#[test]
fn mret_restores_pc_and_mode() {
    let registry = set_instructions_funcs();
    let mut vm = VM::new(program(&[0x3020_0073]));
    vm.write_csr(0x341, DRAM_BASE + 0x200);
    vm.write_csr(0x300, PrivilegeLevel::supervisor());
    assert_eq!(vm.step(&registry), Ok(true));
    assert_eq!(vm.cpu.pc, DRAM_BASE + 0x200);
    assert_eq!(vm.cpu.privilege_level, PrivilegeLevel::Supervisor);
}

#[test]
fn serial_port_receives_stored_byte() {
    let registry = set_instructions_funcs();
    // sb x2, 0(x1)
    let mut vm = VM::new(program(&[0x0020_8023]));
    vm.write_reg(Reg::ra, UART_BASE);
    vm.write_reg(Reg::sp, b'A' as u64);
    assert_eq!(vm.step(&registry), Ok(true));
    assert_eq!(vm.mem.uart.out, vec![b'A']);
}

#[test]
fn memory_regions() {
    let mut mem = Memory::with_program(vec![1, 2, 3]);
    assert_eq!(mem.read(DRAM_BASE, 4), Ok(vec![1, 2, 3, 0]));
    assert_eq!(mem.read(0x1000, 1), Err(EmulatorError::OutOfBoundsAccess));
    assert_eq!(mem.write(DRAM_BASE + 8, &[9, 9]), Ok(()));
    assert_eq!(mem.dram.inner.len(), 10);
    assert_eq!(mem.get(DRAM_BASE + 7, 2), Ok(0x0900));
    assert_eq!(mem.set(DRAM_BASE, 8, 0x0102_0304_0506_0708), Ok(()));
    assert_eq!(mem.get(DRAM_BASE, 8), Ok(0x0102_0304_0506_0708));
    assert_eq!(mem.write(UART_BASE + 1, &[7]), Ok(()));
    assert!(mem.uart.out.is_empty());
    assert_eq!(mem.write(0x2000, &[7]), Err(EmulatorError::OutOfBoundsAccess));
}

#[test]
fn csr_ids_classify_addresses() {
    assert_eq!(CsrID::new(0x341), CsrID::Supported(SupportedCsrID::mepc));
    assert_eq!(CsrID::new(0x341).get(), 0x341);
    assert_eq!(CsrID::new(0x123), CsrID::Unsupported(0x123));
    assert_eq!(CsrID::new(0x123).get(), 0x123);
    // named, but handled by the pass-through handler
    assert_eq!(CsrID::new(0x180), CsrID::Unsupported(0x180));
}

#[test]
fn fetched_word_splits_by_low_bits() {
    let registry = set_instructions_funcs();
    match Instruction::new(&registry, ADDI_X5_X0_42) {
        Ok((Instruction::Base(i), None)) => assert_eq!(i.0, ADDI_X5_X0_42),
        _ => panic!("expected a base instruction"),
    }
    match Instruction::new(&registry, 0x1234_5678) {
        Ok((Instruction::Compressed(lo), Some(hi))) => {
            assert_eq!(lo.0, 0x5678);
            assert_eq!(hi.0, 0x1234);
            assert_eq!(lo.opcode(), 0);
        }
        _ => panic!("expected compressed halves"),
    }
    assert_eq!(Instruction16::new(0x0001).opcode(), 1);
    assert!(Instruction32::new(&registry, 0x7F).is_err());
}

#[test]
fn csr_descriptions() {
    assert_eq!(CsrID::new(0x341).info(), ("mepc", "MRW", "Machine exception program counter."));
    assert_eq!(CsrID::new(0x180).info().0, "satp");
    assert_eq!(CsrID::new(0x7FF).info(), ("unknown", "unknown", "Unknown CSR ID."));
}

#[test]
fn regions_by_address() {
    let mem = Memory::with_program(Vec::new());
    assert_eq!(mem.get_region(DRAM_BASE, 8), Ok(MemMap::DRAM));
    assert_eq!(mem.get_region(UART_BASE + 0xFF, 1), Ok(MemMap::UART0));
    assert_eq!(mem.get_region(UART_BASE + 0xFF, 2), Err(EmulatorError::OutOfBoundsAccess));
    assert_eq!(mem.get_region(0, 4), Err(EmulatorError::OutOfBoundsAccess));
}

#[test]
fn shift_immediates_are_told_apart() {
    let registry = set_instructions_funcs();
    // srai x3, x1, 4
    let d = try_find_instruction32_desc(&registry, Instruction32(0x4040_D193)).unwrap();
    assert_eq!(d.name, Mnemonic::Srai);
    // srai x3, x1, 36: bit 25 holds shamt[5]
    let d = try_find_instruction32_desc(&registry, Instruction32(0x4240_D193)).unwrap();
    assert_eq!(d.name, Mnemonic::Srai);
    // srli x3, x1, 40
    let d = try_find_instruction32_desc(&registry, Instruction32(0x0280_D193)).unwrap();
    assert_eq!(d.name, Mnemonic::Srli);
    // sraiw x3, x1, 4
    let d = try_find_instruction32_desc(&registry, Instruction32(0x4040_D19B)).unwrap();
    assert_eq!(d.name, Mnemonic::Sraiw);
    let mut vm = VM::new(program(&[0x4040_D193, 0x4240_D213]));
    vm.write_reg(Reg::ra, 0x8000_0000_0000_0000);
    assert_eq!(vm.step(&registry), Ok(true));
    assert_eq!(vm.read_reg(Reg::gp), 0xF800_0000_0000_0000);
    assert_eq!(vm.step(&registry), Ok(true));
    assert_eq!(vm.read_reg(Reg::tp), 0xFFFF_FFFF_F800_0000);
}

#[test]
fn dram_reaches_the_end_of_the_address_space() {
    let mem = Memory::with_program(vec![0xAA]);
    assert_eq!(mem.get_region(0x9000_0000, 1), Ok(MemMap::DRAM));
    assert_eq!(mem.get_region(u64::MAX, 1), Ok(MemMap::DRAM));
    assert_eq!(mem.get_region(u64::MAX, 2), Err(EmulatorError::OutOfBoundsAccess));
    assert_eq!(mem.get(DRAM_BASE, 1), Ok(0xAA));
    assert_eq!(mem.get(0xFFFF_FFFF_FFFF_FFF8, 8), Ok(0));
    assert_eq!(mem.read(0x9000_0000, 2), Ok(vec![0, 0]));
}

#[test]
fn store_then_load_word_above_first_128_mib() {
    let registry = set_instructions_funcs();
    let mut vm = VM::new(program(&[SW_X2_0_X1, LW_X3_0_X1]));
    vm.write_reg(Reg::ra, 0x8800_0010);
    vm.write_reg(Reg::sp, 0xdead_beef);
    assert_eq!(vm.run(&registry, 10), Ok(RunExit::Halted));
    assert_eq!(vm.read_reg(Reg::gp), 0xFFFF_FFFF_DEAD_BEEF);
}
