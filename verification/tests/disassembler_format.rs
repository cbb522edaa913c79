use nes_core::cartridge::Cartridge;
use nes_core::cpu::CPU;
use nes_core::mapper::{Mapper, Mapper0};

fn cpu_with_program(at: u16, program: &[u8]) -> CPU {
    let mut prg = vec![0u8; 0x4000];
    let offset = ((at - 0x8000) % 0x4000) as usize;
    for (i, b) in program.iter().enumerate() {
        prg[offset + i] = *b;
    }
    let cartridge = Cartridge::new(prg, Vec::new(), Mapper::Nrom(Mapper0::new(0x4000)));
    let mut cpu = CPU::new(cartridge);
    cpu.pc = at;
    cpu
}

fn line_of(cpu: &CPU) -> String {
    String::from_utf8(cpu.disassemble_current_instruction().unwrap()).unwrap()
}

#[test]
fn disassembles_an_absolute_jump() {
    let cpu = cpu_with_program(0xC000, &[0x4C, 0xF5, 0xC5]);
    assert_eq!(
        line_of(&cpu),
        format!("{:<48}A:00 X:00 Y:00 P:20 SP:FF", "C000  4C F5 C5  JMP $C5F5")
    );
}

#[test]
fn disassembles_an_implicit_instruction() {
    let mut cpu = cpu_with_program(0xC5F5, &[0xEA]);
    cpu.a = 0xAB;
    cpu.x = 0x01;
    cpu.flags.carry = true;
    assert_eq!(
        line_of(&cpu),
        format!("{:<48}A:AB X:01 Y:00 P:21 SP:FF", "C5F5  EA        NOP")
    );
}

#[test]
fn disassembles_an_immediate_operand() {
    let cpu = cpu_with_program(0xC000, &[0xA9, 0x7F]);
    assert_eq!(
        line_of(&cpu),
        format!("{:<48}A:00 X:00 Y:00 P:20 SP:FF", "C000  A9 7F     LDA #$7F")
    );
}

#[test]
fn disassembles_zero_page_with_its_byte() {
    let mut cpu = cpu_with_program(0xC000, &[0xA5, 0x10]);
    cpu.write(0x0010, 0x42).unwrap();
    assert_eq!(
        line_of(&cpu),
        format!("{:<48}A:00 X:00 Y:00 P:20 SP:FF", "C000  A5 10     LDA $10 = 42")
    );
}

#[test]
fn disassembles_zero_page_indexed_with_the_resolved_cell() {
    let mut cpu = cpu_with_program(0xC000, &[0xB5, 0x10]);
    cpu.x = 0x01;
    cpu.write(0x0011, 0x42).unwrap();
    assert_eq!(
        line_of(&cpu),
        format!("{:<48}A:00 X:01 Y:00 P:20 SP:FF", "C000  B5 10     LDA $10,X @ 11 = 42")
    );
}

#[test]
fn disassembles_an_absolute_read_with_its_byte() {
    let mut cpu = cpu_with_program(0xC000, &[0xAD, 0x34, 0x12]);
    cpu.write(0x1234, 0x99).unwrap();
    assert_eq!(
        line_of(&cpu),
        format!("{:<48}A:00 X:00 Y:00 P:20 SP:FF", "C000  AD 34 12  LDA $1234 = 99")
    );
}

#[test]
fn disassembles_a_relative_branch_target() {
    let cpu = cpu_with_program(0xC000, &[0xF0, 0x02]);
    assert_eq!(
        line_of(&cpu),
        format!("{:<48}A:00 X:00 Y:00 P:20 SP:FF", "C000  F0 02     BEQ $C004")
    );
}

#[test]
fn disassembles_indirect_jmp_with_the_page_wrap_bug() {
    let mut cpu = cpu_with_program(0xC000, &[0x6C, 0xFF, 0x10]);
    cpu.write(0x10FF, 0x40).unwrap();
    cpu.write(0x1000, 0x80).unwrap();
    cpu.write(0x1100, 0x90).unwrap();
    assert_eq!(
        line_of(&cpu),
        format!("{:<48}A:00 X:00 Y:00 P:20 SP:FF", "C000  6C FF 10  JMP ($10FF) = 8040")
    );
}

#[test]
fn disassembles_indexed_indirect_and_indirect_indexed() {
    let mut cpu = cpu_with_program(0xC000, &[0xA1, 0x20]);
    cpu.x = 0x04;
    cpu.write(0x0024, 0x74).unwrap();
    cpu.write(0x0025, 0x02).unwrap();
    cpu.write(0x0274, 0x5A).unwrap();
    assert_eq!(
        line_of(&cpu),
        format!("{:<48}A:00 X:04 Y:00 P:20 SP:FF", "C000  A1 20     LDA ($20,X) @ 24 = 0274 = 5A")
    );

    let mut cpu = cpu_with_program(0xC000, &[0xB1, 0x20]);
    cpu.y = 0x10;
    cpu.write(0x0020, 0x00).unwrap();
    cpu.write(0x0021, 0x02).unwrap();
    cpu.write(0x0210, 0x77).unwrap();
    assert_eq!(
        line_of(&cpu),
        format!("{:<48}A:00 X:00 Y:10 P:20 SP:FF", "C000  B1 20     LDA ($20),Y = 0200 @ 0210 = 77")
    );
}

#[test]
fn logging_accumulates_one_line_per_instruction() {
    let mut cpu = cpu_with_program(0xC000, &[0xA9, 0x01, 0xEA]);
    cpu.logging = true;
    cpu.execute_next_instruction().unwrap();
    cpu.execute_next_instruction().unwrap();
    let log = String::from_utf8(cpu.log.clone()).unwrap();
    let lines: Vec<&str> = log.lines().collect();
    assert_eq!(lines.len(), 2);
    assert_eq!(
        lines[0],
        format!("{:<48}A:00 X:00 Y:00 P:20 SP:FF", "C000  A9 01     LDA #$01")
    );
    assert_eq!(
        lines[1],
        format!("{:<48}A:01 X:00 Y:00 P:20 SP:FF", "C002  EA        NOP")
    );
    assert!(log.ends_with('\n'));
}
