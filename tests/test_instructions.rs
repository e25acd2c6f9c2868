use rv_emu::compiler::{Compiler, InstructionLabelLayer, InstructionLayer, ProgramBuilderLayer};
use rv_emu::computer::Computer;
use rv_emu::cpu::CPU;
use rv_emu::program::Program;
use rv_emu::registers::CPUReg::{X0, X1, X2, X3};
use rv_emu::registers::{CPUFlagsAccessTrait, CPURegistersAccessTrait, CPURegistersBuilderTrait};

fn setup_and_run(program: Program, ticks: u64) -> Computer {
    let mut computer = Computer::new();
    computer.set_boot_rom(program.binary);
    for _ in 0..ticks {
        if !computer.tick() {
            break;
        }
    }
    computer
}

fn setup_and_run_custom_cpu(cpu: CPU, program: Program, ticks: u64) -> Computer {
    let mut computer = Computer::new();
    computer.cpu = cpu;
    computer.set_boot_rom(program.binary);
    for _ in 0..ticks {
        if !computer.tick() {
            break;
        }
    }
    computer
}

fn run_add(a: u64, b: u64, result: u64, zero: bool, carry: bool) {
    let cpu = CPU::builder().x1(a).x2(b).build();
    let program = Compiler::new().add(X3, X1, X2).compile();
    let computer = setup_and_run_custom_cpu(cpu, program, 7);
    assert_eq!(computer.cpu.get_register(X3), result);
    assert_eq!(computer.cpu.get_zero(), zero);
    assert_eq!(computer.cpu.get_carry(), carry);
    assert!(!computer.cpu.get_subtract());
}

#[test]
fn test_add_nz_nc() {
    run_add(230, 1337, 1567, false, false);
}

#[test]
fn test_add_nz_c() {
    run_add(u64::MAX, 1337, u64::MAX, false, true);
}

#[test]
fn test_add_z_nc() {
    run_add(0, 0, 0, true, false);
}

fn run_and(a: u64, b: u64, result: u64, zero: bool) {
    let cpu = CPU::builder().x1(a).x2(b).carry(true).subtract(true).build();
    let program = Compiler::new().and(X3, X1, X2).compile();
    let computer = setup_and_run_custom_cpu(cpu, program, 7);
    assert_eq!(computer.cpu.get_register(X3), result);
    assert_eq!(computer.cpu.get_zero(), zero);
    assert!(!computer.cpu.get_carry());
    assert!(!computer.cpu.get_subtract());
}

#[test]
fn test_and_nz() {
    run_and(0b1010, 0b1111, 0b1010, false);
}

#[test]
fn test_and_z() {
    run_and(0, 0, 0, true);
}

fn run_or(a: u64, b: u64, result: u64, zero: bool) {
    let cpu = CPU::builder().x1(a).x2(b).carry(true).subtract(true).build();
    let program = Compiler::new().or(X3, X1, X2).compile();
    let computer = setup_and_run_custom_cpu(cpu, program, 7);
    assert_eq!(computer.cpu.get_register(X3), result);
    assert_eq!(computer.cpu.get_zero(), zero);
    assert!(!computer.cpu.get_carry());
    assert!(!computer.cpu.get_subtract());
}

#[test]
fn test_or_nz() {
    run_or(0b1010, 0b1110, 0b1110, false);
}

#[test]
fn test_or_z() {
    run_or(0, 0, 0, true);
}

fn run_sub(a: u64, b: u64, result: u64, zero: bool, carry: bool) {
    let cpu = CPU::builder().x1(a).x2(b).build();
    let program = Compiler::new().sub(X3, X1, X2).compile();
    let computer = setup_and_run_custom_cpu(cpu, program, 7);
    assert_eq!(computer.cpu.get_register(X3), result);
    assert_eq!(computer.cpu.get_zero(), zero);
    assert_eq!(computer.cpu.get_carry(), carry);
    assert!(computer.cpu.get_subtract());
}

#[test]
fn test_sub_nz_nc() {
    run_sub(1337, 1235, 102, false, false);
}

#[test]
fn test_sub_z_nc() {
    run_sub(513, 513, 0, true, false);
}

#[test]
fn test_sub_z_c() {
    run_sub(1, u64::MAX, 0, true, true);
}

fn run_xor(a: u64, b: u64, result: u64, zero: bool) {
    let cpu = CPU::builder().x1(a).x2(b).carry(true).subtract(true).build();
    let program = Compiler::new().xor(X3, X1, X2).compile();
    let computer = setup_and_run_custom_cpu(cpu, program, 7);
    assert_eq!(computer.cpu.get_register(X3), result);
    assert_eq!(computer.cpu.get_zero(), zero);
    assert!(!computer.cpu.get_carry());
    assert!(!computer.cpu.get_subtract());
}

#[test]
fn test_xor_nz() {
    run_xor(0b1010, 0b1110, 0b0100, false);
}

#[test]
fn test_xor_z() {
    run_xor(0, 0, 0, true);
}

fn run_sll(value: u64, shift: u64, result: u64) {
    let cpu = CPU::builder().x1(value).x2(shift).build();
    let program = Compiler::new().sll(X3, X1, X2).compile();
    let computer = setup_and_run_custom_cpu(cpu, program, 7);
    assert_eq!(computer.cpu.get_register(X3), result);
}

#[test]
fn test_sll_1() {
    run_sll(0b1010, 2, 0b101000);
}

#[test]
fn test_sll_2() {
    run_sll(120, 1, 240);
}

fn run_srl(value: u64, shift: u64, result: u64) {
    let cpu = CPU::builder().x1(value).x2(shift).build();
    let program = Compiler::new().srl(X3, X1, X2).compile();
    let computer = setup_and_run_custom_cpu(cpu, program, 7);
    assert_eq!(computer.cpu.get_register(X3), result);
}

#[test]
fn test_srl_1() {
    run_srl(0b1010, 2, 0b10);
}

#[test]
fn test_srl_2() {
    run_srl(120, 1, 60);
}

fn run_sra(value: i64, shift: u64, result: i64) {
    let cpu = CPU::builder().x1(value as u64).x2(shift).build();
    let program = Compiler::new().sra(X3, X1, X2).compile();
    let computer = setup_and_run_custom_cpu(cpu, program, 7);
    assert_eq!(computer.cpu.get_register(X3), result as u64);
}

#[test]
fn test_sra_1() {
    run_sra(-2, 1, -1);
}

#[test]
fn test_sra_2() {
    run_sra(-1280, 3, -160);
}

#[test]
fn test_lb() {
    let program = Compiler::new()
        .data("test", vec![69])
        .lb_label(X1, X0, "test")
        .compile();
    let computer = setup_and_run(program, 13);
    assert_eq!(computer.cpu.get_register(X1), 69);
}
