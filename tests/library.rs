use rv_emu::address::{Address, BOOT_ROM_END, BOOT_ROM_SIZE};
use rv_emu::bits::{construct_u32, construct_u64, construct_u64_from_data, get_bit_u64, set_bit_u64};
use rv_emu::bus::{Bus, BusOwner, BusStatus, MMC};
use rv_emu::compiler::{Compiler, InstructionLabelLayer, InstructionLayer, LabelReference, ProgramBuilderLayer};
use rv_emu::computer::Computer;
use rv_emu::cpu::CPU;
use rv_emu::decompose::{decompose, decompose_instruction};
use rv_emu::instruction::{decode_instruction, encode_instruction, DecodeError, Instruction};
use rv_emu::micro_op::{MicroOp, MicroOpResponse};
use rv_emu::paged_memory::PagedMemory;
use rv_emu::program::Program;
use rv_emu::ram::RAM;
use rv_emu::registers::CPUReg::{self, IR, PC, TMP0, TMP1, X0, X1, X2, X3, X31};
use rv_emu::registers::{
    CPUFlags, CPUFlagsAccessTrait, CPURegisters, CPURegistersAccessTrait, CPURegistersBuilder,
    CPURegistersBuilderTrait,
};
use rv_emu::rom::ROM;

fn run(computer: &mut Computer, ticks: u64) -> u64 {
    let mut done = 0;
    while done < ticks {
        done += 1;
        if !computer.tick() {
            break;
        }
    }
    done
}

// Registers

#[test]
fn register_set_then_get_returns_value() {
    let mut regs = CPURegisters::new();
    for i in 1..32usize {
        let reg = CPUReg::from_index(i);
        regs.set_register(reg, 1000 + i as u64);
        assert_eq!(regs.get_register(reg), 1000 + i as u64);
    }
}

#[test]
fn register_x0_discards_writes() {
    let mut regs = CPURegisters::new();
    regs.set_register(X0, 42);
    assert_eq!(regs.get_register(X0), 0);
    let built = CPURegistersBuilder::new().x0(7).x1(8).build();
    assert_eq!(built.get_register(X0), 0);
    assert_eq!(built.get_register(X1), 8);
}

#[test]
fn register_ir_write_advances_pc_by_four() {
    let mut regs = CPURegisters::new();
    regs.set_register(PC, 100);
    regs.set_register(IR, 0xABCD);
    assert_eq!(regs.get_register(PC), 104);
    assert_eq!(regs.get_register(IR), 0xABCD);
}

#[test]
fn register_pc_advance_wraps() {
    let mut regs = CPURegisters::new();
    regs.set_register(PC, u64::MAX - 1);
    regs.set_register(IR, 1);
    assert_eq!(regs.get_register(PC), 2);
}

#[test]
fn register_indices_round_trip() {
    for i in 0..43usize {
        assert_eq!(CPUReg::from_index(i).index(), i);
    }
    assert_eq!(X31.to_riscv(), 31);
    assert_eq!(TMP1.index(), 36);
}

#[test]
fn flags_set_and_clear_independently() {
    let mut flags = CPUFlags::new();
    flags.set_carry(true);
    assert!(flags.get_carry());
    assert!(!flags.get_zero());
    assert!(!flags.get_subtract());
    assert_eq!(flags.get_flags(), 0b010);
    flags.set_zero(true);
    flags.set_subtract(true);
    assert_eq!(flags.get_flags(), 0b111);
    flags.set_carry(false);
    assert_eq!(flags.get_flags(), 0b101);
}

// Bits

#[test]
fn bits_construct_little_endian() {
    assert_eq!(construct_u32(0x78, 0x56, 0x34, 0x12), 0x1234_5678);
    assert_eq!(construct_u64([1, 2, 3, 4, 5, 6, 7, 8]), 0x0807_0605_0403_0201);
}

#[test]
fn bits_construct_from_data_pads_with_zero() {
    let data = vec![0x11, 0x22, 0x33];
    assert_eq!(construct_u64_from_data(&data, 1), 0x3322);
    assert_eq!(construct_u64_from_data(&data, 0), 0x33_2211);
    assert_eq!(construct_u64_from_data(&data, 10), 0);
    assert_eq!(construct_u64_from_data(&data, usize::MAX), 0);
}

#[test]
fn bits_get_and_set() {
    assert!(get_bit_u64(0b100, 2));
    assert!(!get_bit_u64(0b100, 1));
    assert_eq!(set_bit_u64(0, 63, true), 1 << 63);
    assert_eq!(set_bit_u64(0xFF, 0, false), 0xFE);
}

// Paged memory

#[test]
fn memory_never_written_reads_zero() {
    let memory = PagedMemory::new();
    assert_eq!(memory.read_byte(0), 0);
    assert_eq!(memory.read_byte(u64::MAX), 0);
    assert_eq!(memory.read_dw(0x1234_5678), 0);
}

#[test]
fn memory_write_byte_allocates_zeroed_page() {
    let mut memory = PagedMemory::new();
    memory.write_byte(0x2005, 0xAB);
    assert_eq!(memory.read_byte(0x2005), 0xAB);
    assert_eq!(memory.read_byte(0x2004), 0);
    assert_eq!(memory.read_byte(0x2FFF), 0);
    assert_eq!(memory.read_byte(0x1FFF), 0);
}

#[test]
fn memory_multi_byte_little_endian() {
    let mut memory = PagedMemory::new();
    memory.write_w(0x10, 0xDEAD_BEEF);
    assert_eq!(memory.read_byte(0x10), 0xEF);
    assert_eq!(memory.read_byte(0x13), 0xDE);
    assert_eq!(memory.read_w(0x10), 0xDEAD_BEEF);
    memory.write_hw(0x20, 0x1234);
    assert_eq!(memory.read_byte(0x20), 0x34);
    assert_eq!(memory.read_byte(0x21), 0x12);
    memory.write_dw(0x30, 0x0102_0304_0506_0708);
    assert_eq!(memory.read_dw(0x30), 0x0102_0304_0506_0708);
    assert_eq!(memory.read_byte(0x37), 0x01);
}

#[test]
fn memory_write_across_page_boundary_and_wrap() {
    let mut memory = PagedMemory::new();
    memory.write_dw(0xFFE, 0x1122_3344_5566_7788);
    assert_eq!(memory.read_dw(0xFFE), 0x1122_3344_5566_7788);
    assert_eq!(memory.read_byte(0x1000), 0x66);
    memory.write_w(u64::MAX - 1, 0xAABB_CCDD);
    assert_eq!(memory.read_byte(u64::MAX), 0xCC);
    assert_eq!(memory.read_byte(0), 0xBB);
    assert_eq!(memory.read_w(u64::MAX - 1), 0xAABB_CCDD);
}

// Bus

#[test]
fn bus_contention_and_release() {
    let mut bus = Bus::new();
    assert!(bus.is_available());
    assert!(bus.take_ownership(BusOwner::CPU));
    assert!(bus.put_address(Address::new(0x40), BusOwner::CPU));
    assert!(bus.put_data(7, BusOwner::CPU));
    assert!(bus.put_status(BusStatus::WriteByte, BusOwner::CPU));
    assert!(!bus.take_ownership(BusOwner::RAM));
    assert_eq!(bus.get_address().value(), 0x40);
    assert_eq!(bus.get_data(), 7);
    assert_eq!(bus.get_status(), BusStatus::WriteByte);
    assert!(!bus.release_ownership(BusOwner::RAM));
    assert!(bus.release_ownership(BusOwner::CPU));
    assert_eq!(bus.get_status(), BusStatus::Idle);
    assert!(bus.take_ownership(BusOwner::RAM));
}

#[test]
fn bus_non_owner_writes_are_ignored() {
    let mut bus = Bus::new();
    assert!(bus.take_ownership(BusOwner::CPU));
    assert!(!bus.put_address(Address::new(9), BusOwner::ROM));
    assert!(!bus.put_data(9, BusOwner::ROM));
    assert!(!bus.put_status(BusStatus::Read, BusOwner::ROM));
    assert_eq!(bus.get_address().value(), 0);
    assert_eq!(bus.get_data(), 0);
    assert_eq!(bus.get_status(), BusStatus::Idle);
    bus.force_put_data(5);
    assert_eq!(bus.get_data(), 5);
}

#[test]
fn bus_routes_by_address() {
    let mut bus = Bus::new();
    assert_eq!(bus.get_active_mmc(), None);
    bus.take_ownership(BusOwner::CPU);
    bus.put_status(BusStatus::Read, BusOwner::CPU);
    assert_eq!(bus.get_active_mmc(), Some(MMC::ROM));
    bus.put_address(Address::new(BOOT_ROM_END), BusOwner::CPU);
    assert_eq!(bus.get_active_mmc(), Some(MMC::ROM));
    bus.put_address(Address::new(BOOT_ROM_END + 1), BusOwner::CPU);
    assert_eq!(bus.get_active_mmc(), Some(MMC::RAM));
}

#[test]
fn address_boot_rom_offset() {
    assert_eq!(Address::boot_rom(0x10).value(), 0x10);
    assert_eq!(Address::boot_rom(BOOT_ROM_SIZE).value(), BOOT_ROM_END);
}

// Devices

#[test]
fn ram_serves_writes_and_reads() {
    let mut ram = RAM::new();
    let mut bus = Bus::new();
    bus.take_ownership(BusOwner::CPU);
    bus.put_address(Address::new(0x8000), BusOwner::CPU);
    bus.put_data(0x1122_3344_5566_7788, BusOwner::CPU);
    bus.put_status(BusStatus::WriteHalfWord, BusOwner::CPU);
    ram.process_bus(&mut bus);
    bus.put_data(0, BusOwner::CPU);
    bus.put_status(BusStatus::Read, BusOwner::CPU);
    ram.process_bus(&mut bus);
    assert_eq!(bus.get_data(), 0x7788);
    bus.put_data(0xAB_CDEF, BusOwner::CPU);
    bus.put_status(BusStatus::WriteByte, BusOwner::CPU);
    ram.process_bus(&mut bus);
    bus.put_status(BusStatus::Read, BusOwner::CPU);
    ram.process_bus(&mut bus);
    assert_eq!(bus.get_data(), 0x77EF);
    bus.put_data(0x1122_3344_5566_7788, BusOwner::CPU);
    bus.put_status(BusStatus::WriteDoubleWord, BusOwner::CPU);
    ram.process_bus(&mut bus);
    bus.put_data(0, BusOwner::CPU);
    bus.put_status(BusStatus::Read, BusOwner::CPU);
    ram.process_bus(&mut bus);
    assert_eq!(bus.get_data(), 0x1122_3344_5566_7788);
    bus.put_data(0xFFFF_FFFF_0000_0001, BusOwner::CPU);
    bus.put_status(BusStatus::WriteWord, BusOwner::CPU);
    ram.process_bus(&mut bus);
    bus.put_status(BusStatus::Read, BusOwner::CPU);
    ram.process_bus(&mut bus);
    assert_eq!(bus.get_data(), 0x1122_3344_0000_0001);
}

#[test]
fn rom_answers_reads_and_ignores_writes() {
    let mut rom = ROM::new();
    rom.force_write(vec![1, 2, 3], 0x20);
    let mut bus = Bus::new();
    bus.take_ownership(BusOwner::CPU);
    bus.put_address(Address::new(0x20), BusOwner::CPU);
    bus.put_data(0xFF, BusOwner::CPU);
    bus.put_status(BusStatus::WriteByte, BusOwner::CPU);
    rom.process_bus(&mut bus);
    assert_eq!(bus.get_data(), 0xFF);
    bus.put_status(BusStatus::Read, BusOwner::CPU);
    rom.process_bus(&mut bus);
    assert_eq!(bus.get_data(), 0x03_0201);
}

// Instruction codec

#[test]
fn codec_known_encodings() {
    assert_eq!(encode_instruction(&Instruction::Add(X3, X1, X2)), 0x0020_81B3);
    assert_eq!(encode_instruction(&Instruction::Sub(X3, X1, X2)), 0x4020_81B3);
    assert_eq!(encode_instruction(&Instruction::ECall), 0x0000_0073);
    assert_eq!(encode_instruction(&Instruction::EBreak), 0x0010_0073);
    assert_eq!(Instruction::Lb(X1, X2, 8).encode(), 0x0081_0083);
    assert_eq!(Instruction::Lb(X1, X2, u64::MAX).encode(), 0xFFF1_0083);
}

#[test]
fn codec_decode_encode_round_trip() {
    let regs = [X0, X1, X2, X3, X31];
    for &a in regs.iter() {
        for &b in regs.iter() {
            for &c in regs.iter() {
                let all = [
                    Instruction::Add(a, b, c),
                    Instruction::And(a, b, c),
                    Instruction::Or(a, b, c),
                    Instruction::Sub(a, b, c),
                    Instruction::Xor(a, b, c),
                    Instruction::Sll(a, b, c),
                    Instruction::Srl(a, b, c),
                    Instruction::Sra(a, b, c),
                ];
                for i in all.iter() {
                    assert_eq!(Instruction::decode(i.encode()), Ok(*i));
                }
            }
            for imm in [0u64, 1, 2047, u64::MAX, u64::MAX - 2047] {
                let i = Instruction::Lb(a, b, imm);
                assert_eq!(Instruction::decode(i.encode()), Ok(i));
            }
        }
    }
    assert_eq!(Instruction::decode(Instruction::ECall.encode()), Ok(Instruction::ECall));
    assert_eq!(Instruction::decode(Instruction::EBreak.encode()), Ok(Instruction::EBreak));
}

#[test]
fn codec_encode_decode_round_trip() {
    for w in [0x0020_81B3u32, 0x4020_D1B3, 0xFFF1_0083, 0x8001_0F83, 0x0000_0073, 0x0010_0073, 0x01FF_FFB3] {
        let i = decode_instruction(w).unwrap();
        assert_eq!(i.encode(), w);
    }
}

#[test]
fn codec_immediate_is_sign_extended() {
    assert_eq!(decode_instruction(0x8001_0083), Ok(Instruction::Lb(X1, X2, 0xFFFF_FFFF_FFFF_F800)));
    assert_eq!(decode_instruction(0x7FF1_0083), Ok(Instruction::Lb(X1, X2, 0x7FF)));
}

#[test]
fn codec_rejects_unknown_words() {
    assert_eq!(decode_instruction(0), Err(DecodeError { bits: 0 }));
    assert_eq!(decode_instruction(0x45), Err(DecodeError { bits: 0x45 }));
    assert_eq!(decode_instruction(0x0200_00B3), Err(DecodeError { bits: 0x0200_00B3 }));
    assert_eq!(decode_instruction(0x0000_1003), Err(DecodeError { bits: 0x0000_1003 }));
    assert_eq!(decode_instruction(0x0020_0073), Err(DecodeError { bits: 0x0020_0073 }));
}

#[test]
fn codec_environment_call_ignores_register_fields() {
    assert_eq!(decode_instruction(0x0000_00F3), Ok(Instruction::ECall));
    assert_eq!(Instruction::ECall.encode(), 0x0000_0073);
}

#[test]
fn codec_byte_vector_is_little_endian() {
    assert_eq!(Instruction::Add(X3, X1, X2).to_byte_vector(), vec![0xB3, 0x81, 0x20, 0x00]);
}

// Decomposition

#[test]
fn decompose_load_byte_sequence() {
    let ops = decompose(Instruction::Lb(X1, X2, 5));
    assert_eq!(
        ops,
        vec![
            MicroOp::RegisterLoadImm(TMP0, 5),
            MicroOp::ALUAdd(TMP1, X2, TMP0),
            MicroOp::BusTake,
            MicroOp::BusWriteAddress(TMP1),
            MicroOp::BusSetRead,
            MicroOp::BusReadByte(X1),
            MicroOp::BusRelease,
        ]
    );
    assert_eq!(decompose(Instruction::EBreak), vec![MicroOp::Halt]);
    assert_eq!(decompose(Instruction::Sra(X1, X2, X3)), vec![MicroOp::ALUSra(X1, X2, X3)]);
}

#[test]
fn decompose_from_bits() {
    let (i, ops) = decompose_instruction(0x0020_81B3).unwrap();
    assert_eq!(i, Instruction::Add(X3, X1, X2));
    assert_eq!(ops, vec![MicroOp::ALUAdd(X3, X1, X2)]);
    assert_eq!(decompose_instruction(0x45).err(), Some(DecodeError { bits: 0x45 }));
}

#[test]
fn micro_op_fetch_queue_and_responses() {
    let q: Vec<MicroOp> = MicroOp::default_queue().into_iter().collect();
    assert_eq!(
        q,
        vec![
            MicroOp::BusTake,
            MicroOp::BusWriteAddress(PC),
            MicroOp::BusSetRead,
            MicroOp::BusReadWord(IR),
            MicroOp::BusRelease,
            MicroOp::Decode,
        ]
    );
    assert!(MicroOpResponse::new_repeat().repeat);
    assert!(MicroOpResponse::new_halt().halt);
    assert!(!MicroOpResponse::new().halt);
}

// Programs and the compiler

#[test]
fn program_build_layout() {
    let program = Program::build(&vec![Instruction::Add(X3, X1, X2)], &vec![9, 8]);
    assert_eq!(program.binary, vec![0xB3, 0x81, 0x20, 0x00, 9, 8]);
    assert_eq!(program.data_start(), 4);
}

#[test]
fn compiler_resolves_labels_to_data_addresses() {
    let program = Compiler::new()
        .data("a", vec![1, 2])
        .data("b", vec![3])
        .lb_label(X1, X0, "b")
        .lb_label(X2, X0, "a")
        .compile();
    // three instructions (two loads and the final break), then the data
    assert_eq!(program.data_start, 12);
    let words: Vec<u32> = (0..3)
        .map(|k| construct_u32(program.binary[4 * k], program.binary[4 * k + 1], program.binary[4 * k + 2], program.binary[4 * k + 3]))
        .collect();
    assert_eq!(decode_instruction(words[0]), Ok(Instruction::Lb(X1, X0, 14)));
    assert_eq!(decode_instruction(words[1]), Ok(Instruction::Lb(X2, X0, 12)));
    assert_eq!(decode_instruction(words[2]), Ok(Instruction::EBreak));
    assert_eq!(&program.binary[12..], &[1, 2, 3]);
}

#[test]
fn compiler_latest_label_wins() {
    let program = Compiler::new()
        .data("x", vec![1])
        .data("x", vec![2])
        .lb_label(X1, X0, "x")
        .compile();
    let w = construct_u32(program.binary[0], program.binary[1], program.binary[2], program.binary[3]);
    assert_eq!(decode_instruction(w), Ok(Instruction::Lb(X1, X0, 9)));
}

#[test]
fn label_reference_insert_address() {
    let r = LabelReference::new("d".to_string(), 3);
    assert_eq!(r.instruction_index, 3);
    assert_eq!(LabelReference::insert_into_instruction(Instruction::Lb(X1, X2, 0), 77), Instruction::Lb(X1, X2, 77));
}

// The CPU and the computer

#[test]
fn computer_loads_sign_extended_byte() {
    let program = Compiler::new().data("neg", vec![0x80]).lb_label(X1, X0, "neg").compile();
    let mut computer = Computer::new();
    computer.set_boot_rom(program.binary);
    run(&mut computer, 100);
    assert_eq!(computer.cpu.get_register(X1), 0xFFFF_FFFF_FFFF_FF80);
}

#[test]
fn computer_runs_to_halt_and_stays_halted() {
    let program = Compiler::new()
        .data("v", vec![17])
        .lb_label(X1, X0, "v")
        .add(X1, X1, X1)
        .compile();
    let mut computer = Computer::new();
    computer.set_boot_rom(program.binary);
    let ticks = run(&mut computer, 1000);
    // three fetches of six ticks, seven for the load, one for the add, one for the halt
    assert_eq!(ticks, 3 * 6 + 7 + 1 + 1);
    assert!(computer.cpu.is_halted());
    assert_eq!(computer.cpu.get_register(X1), 34);
    let pc = computer.cpu.get_register(PC);
    let flags = computer.cpu.get_flags();
    for _ in 0..5 {
        assert!(!computer.tick());
    }
    assert_eq!(computer.cpu.get_register(PC), pc);
    assert_eq!(computer.cpu.get_flags(), flags);
    assert_eq!(computer.cpu.get_register(X1), 34);
    assert!(computer.bus.is_available());
}

#[test]
fn computer_stops_on_undecodable_word() {
    let mut computer = Computer::new();
    computer.set_boot_rom(vec![0x45, 0, 0, 0]);
    let ticks = run(&mut computer, 100);
    assert_eq!(ticks, 6);
    assert!(computer.cpu.is_halted());
    assert_eq!(computer.cpu.fault(), Some(DecodeError { bits: 0x45 }));
    assert!(!computer.tick());
}

#[test]
fn cpu_retries_bus_take_while_bus_is_held() {
    let mut cpu = CPU::new();
    let mut bus = Bus::new();
    assert!(bus.take_ownership(BusOwner::RAM));
    for _ in 0..3 {
        assert!(cpu.tick(&mut bus));
        assert_eq!(cpu.get_register(PC), 0);
    }
    assert!(bus.release_ownership(BusOwner::RAM));
    assert!(cpu.tick(&mut bus));
    assert!(!bus.is_available());
    assert!(!bus.take_ownership(BusOwner::RAM));
}

#[test]
fn cpu_builder_sets_registers_and_flags() {
    let cpu = CPU::builder().x1(5).pc(8).tmp7(3).zero(true).build();
    assert_eq!(cpu.get_register(X1), 5);
    assert_eq!(cpu.get_register(PC), 8);
    assert_eq!(cpu.get_register(CPUReg::TMP7), 3);
    assert!(cpu.get_zero());
    assert!(!cpu.get_carry());
    assert!(!cpu.is_halted());
}
