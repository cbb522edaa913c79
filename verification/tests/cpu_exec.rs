use nes_core::cartridge::Cartridge;
use nes_core::cpu::CPU;
use nes_core::mapper::{Mapper, Mapper0};
use nes_core::EmuError;

/// A CPU whose 16 KiB PRG-ROM holds `program` at CPU address `at`,
/// with PC already pointing there.
fn cpu_with_program(at: u16, program: &[u8]) -> CPU {
    let mut prg = vec![0u8; 0x4000];
    let offset = ((at - 0x8000) % 0x4000) as usize;
    for (i, b) in program.iter().enumerate() {
        prg[offset + i] = *b;
    }
    let cartridge = Cartridge::new(prg, Vec::new(), Mapper::Nrom(Mapper0::new(0x4000)));
    let mut cpu = CPU::new(cartridge);
    cpu.pc = at;
    cpu
}

#[test]
fn adc_edge_cases() {
    // ADC #$01 three times, from A = 0, 127 and 255.
    let mut cpu = cpu_with_program(0xC000, &[0x69, 0x01, 0x69, 0x01, 0x69, 0x01]);
    cpu.a = 0;
    cpu.execute_next_instruction().unwrap();
    assert_eq!(cpu.a, 1);
    assert!(!cpu.flags.carry && !cpu.flags.zero && !cpu.flags.overflow && !cpu.flags.negative);

    cpu.a = 127;
    cpu.execute_next_instruction().unwrap();
    assert_eq!(cpu.a, 128);
    assert!(!cpu.flags.carry && !cpu.flags.zero);
    assert!(cpu.flags.overflow && cpu.flags.negative);

    cpu.a = 255;
    cpu.flags.carry = false;
    cpu.execute_next_instruction().unwrap();
    assert_eq!(cpu.a, 0);
    assert!(cpu.flags.carry && cpu.flags.zero);
    assert!(!cpu.flags.overflow && !cpu.flags.negative);
}

#[test]
fn zero_page_indexed_x_load() {
    // LDX #$01; LDA $10,X with RAM[$11] = $42.
    let mut cpu = cpu_with_program(0xC000, &[0xA2, 0x01, 0xB5, 0x10]);
    cpu.write(0x0011, 0x42).unwrap();
    cpu.execute_next_instruction().unwrap();
    cpu.execute_next_instruction().unwrap();
    assert_eq!(cpu.a, 0x42);
    assert!(!cpu.flags.zero && !cpu.flags.negative);
}

#[test]
fn zero_page_indexed_wraps_within_page_zero() {
    // LDX #$10; LDA $F8,X: the sum wraps to $08 instead of $0108.
    let mut cpu = cpu_with_program(0xC000, &[0xA2, 0x10, 0xB5, 0xF8]);
    cpu.write(0x0008, 0x77).unwrap();
    cpu.write(0x0108, 0x11).unwrap();
    cpu.execute_next_instruction().unwrap();
    cpu.execute_next_instruction().unwrap();
    assert_eq!(cpu.a, 0x77);
    assert_eq!(cpu.instruction_target, 0x0008);
}

#[test]
fn indirect_jmp_page_wrap_bug() {
    // JMP ($10FF): the high byte comes from $1000, not $1100.
    let mut cpu = cpu_with_program(0xC000, &[0x6C, 0xFF, 0x10]);
    cpu.write(0x10FF, 0x40).unwrap();
    cpu.write(0x1000, 0x80).unwrap();
    cpu.write(0x1100, 0x90).unwrap();
    cpu.execute_next_instruction().unwrap();
    assert_eq!(cpu.pc, 0x8040);
}

#[test]
fn branch_cycles() {
    // Taken BEQ within the same page: base 2 + 1.
    let mut cpu = cpu_with_program(0xC000, &[0xF0, 0x02]);
    cpu.flags.zero = true;
    cpu.execute_next_instruction().unwrap();
    assert_eq!(cpu.pc, 0xC004);
    assert_eq!(cpu.cycles_remaining, 3);

    // Taken BEQ across a page boundary: base 2 + 2.
    let mut cpu = cpu_with_program(0xC0FD, &[0xF0, 0x01]);
    cpu.flags.zero = true;
    cpu.execute_next_instruction().unwrap();
    assert_eq!(cpu.pc, 0xC100);
    assert_eq!(cpu.cycles_remaining, 4);

    // Untaken BEQ: exactly the base, even across a page.
    let mut cpu = cpu_with_program(0xC0FD, &[0xF0, 0x01]);
    cpu.flags.zero = false;
    cpu.execute_next_instruction().unwrap();
    assert_eq!(cpu.pc, 0xC0FF);
    assert_eq!(cpu.cycles_remaining, 2);
}

#[test]
fn jsr_rts_symmetry() {
    // JSR $C004; BRK padding; RTS at $C004.
    let mut cpu = cpu_with_program(0xC000, &[0x20, 0x04, 0xC0, 0x00, 0x60]);
    cpu.execute_next_instruction().unwrap();
    assert_eq!(cpu.pc, 0xC004);
    assert_eq!(cpu.s, 0xFD);
    // Pushed PC - 1 = $C002, high byte first.
    assert_eq!(cpu.read(0x01FF).unwrap(), 0xC0);
    assert_eq!(cpu.read(0x01FE).unwrap(), 0x02);
    cpu.execute_next_instruction().unwrap();
    assert_eq!(cpu.pc, 0xC003);
    assert_eq!(cpu.s, 0xFF);
}

#[test]
fn stack_wraps_within_page_one() {
    // From S = $00, PHA wraps S down through $FF; PLA returns the
    // byte and restores S.
    let mut cpu = cpu_with_program(0xC000, &[0x48, 0x68, 0x48, 0x48]);
    cpu.s = 0x00;
    cpu.a = 0x5A;
    cpu.execute_next_instruction().unwrap();
    assert_eq!(cpu.s, 0xFF);
    assert_eq!(cpu.read(0x0100).unwrap(), 0x5A);
    cpu.a = 0x00;
    cpu.execute_next_instruction().unwrap();
    assert_eq!(cpu.a, 0x5A);
    assert_eq!(cpu.s, 0x00);
    // Two more pushes: S decrements through $00 -> $FF -> $FE.
    cpu.execute_next_instruction().unwrap();
    assert_eq!(cpu.s, 0xFF);
    cpu.execute_next_instruction().unwrap();
    assert_eq!(cpu.s, 0xFE);
}

#[test]
fn ram_is_mirrored_every_2_kib() {
    let mut cpu = cpu_with_program(0xC000, &[0xEA]);
    cpu.write(0x0005, 0xAB).unwrap();
    assert_eq!(cpu.read(0x0005).unwrap(), 0xAB);
    assert_eq!(cpu.read(0x0805).unwrap(), 0xAB);
    assert_eq!(cpu.read(0x1005).unwrap(), 0xAB);
    assert_eq!(cpu.read(0x1805).unwrap(), 0xAB);
    cpu.write(0x1FFF, 0xCD).unwrap();
    assert_eq!(cpu.read(0x07FF).unwrap(), 0xCD);
    assert_eq!(cpu.read(0x0FFF).unwrap(), 0xCD);
}

#[test]
fn page_cross_adds_one_cycle_for_reads_only() {
    // LDA $C0FF,X with X = 1 crosses into $C100: 4 + 1 cycles.
    let mut cpu = cpu_with_program(0xC000, &[0xBD, 0xFF, 0xC0]);
    cpu.x = 1;
    cpu.execute_next_instruction().unwrap();
    assert_eq!(cpu.instruction_target, 0xC100);
    assert_eq!(cpu.cycles_remaining, 5);

    // The same load without a crossing: exactly 4.
    let mut cpu = cpu_with_program(0xC000, &[0xBD, 0xFE, 0xC0]);
    cpu.x = 1;
    cpu.execute_next_instruction().unwrap();
    assert_eq!(cpu.instruction_target, 0xC0FF);
    assert_eq!(cpu.cycles_remaining, 4);

    // STA $10FF,X with X = 1 crosses but stores never pay: 5 flat.
    let mut cpu = cpu_with_program(0xC000, &[0x9D, 0xFF, 0x10]);
    cpu.x = 1;
    cpu.execute_next_instruction().unwrap();
    assert_eq!(cpu.instruction_target, 0x1100);
    assert_eq!(cpu.cycles_remaining, 5);

    // LDA ($10),Y crossing a page: 5 + 1.
    let mut cpu = cpu_with_program(0xC000, &[0xB1, 0x10]);
    cpu.write(0x0010, 0xFF).unwrap();
    cpu.write(0x0011, 0x10).unwrap();
    cpu.y = 1;
    cpu.execute_next_instruction().unwrap();
    assert_eq!(cpu.instruction_target, 0x1100);
    assert_eq!(cpu.cycles_remaining, 6);
}

#[test]
fn sbc_sets_borrow_and_overflow() {
    // SEC; SBC #$01 from A = 0: wraps to $FF and borrows.
    let mut cpu = cpu_with_program(0xC000, &[0x38, 0xE9, 0x01]);
    cpu.a = 0x00;
    cpu.execute_next_instruction().unwrap();
    cpu.execute_next_instruction().unwrap();
    assert_eq!(cpu.a, 0xFF);
    assert!(!cpu.flags.carry);
    assert!(cpu.flags.negative && !cpu.flags.zero && !cpu.flags.overflow);

    // SEC; SBC #$01 from A = $80: signed overflow (-128 - 1).
    let mut cpu = cpu_with_program(0xC000, &[0x38, 0xE9, 0x01]);
    cpu.a = 0x80;
    cpu.execute_next_instruction().unwrap();
    cpu.execute_next_instruction().unwrap();
    assert_eq!(cpu.a, 0x7F);
    assert!(cpu.flags.carry && cpu.flags.overflow);
    assert!(!cpu.flags.negative && !cpu.flags.zero);
}

#[test]
fn compare_sets_carry_zero_negative() {
    // CMP #$10 against A = $20, $10 and $00.
    let mut cpu = cpu_with_program(0xC000, &[0xC9, 0x10, 0xC9, 0x10, 0xC9, 0x10]);
    cpu.a = 0x20;
    cpu.execute_next_instruction().unwrap();
    assert!(cpu.flags.carry && !cpu.flags.zero && !cpu.flags.negative);
    cpu.a = 0x10;
    cpu.execute_next_instruction().unwrap();
    assert!(cpu.flags.carry && cpu.flags.zero && !cpu.flags.negative);
    cpu.a = 0x00;
    cpu.execute_next_instruction().unwrap();
    assert!(!cpu.flags.carry && !cpu.flags.zero && cpu.flags.negative);
}

#[test]
fn shifts_and_rotates_move_the_carry() {
    // ASL A; ROL A with A = $81: carry leaves bit 7 and re-enters.
    let mut cpu = cpu_with_program(0xC000, &[0x0A, 0x2A]);
    cpu.a = 0x81;
    cpu.execute_next_instruction().unwrap();
    assert_eq!(cpu.a, 0x02);
    assert!(cpu.flags.carry);
    cpu.execute_next_instruction().unwrap();
    assert_eq!(cpu.a, 0x05);
    assert!(!cpu.flags.carry);

    // LSR A; ROR A with A = $01.
    let mut cpu = cpu_with_program(0xC000, &[0x4A, 0x6A]);
    cpu.a = 0x01;
    cpu.execute_next_instruction().unwrap();
    assert_eq!(cpu.a, 0x00);
    assert!(cpu.flags.carry && cpu.flags.zero);
    cpu.execute_next_instruction().unwrap();
    assert_eq!(cpu.a, 0x80);
    assert!(!cpu.flags.carry && cpu.flags.negative);
}

#[test]
fn php_pushes_b_set_and_plp_discards_it() {
    // PHP; PLP: the pushed byte carries bits 4 and 5 set; PLP drops
    // them.
    let mut cpu = cpu_with_program(0xC000, &[0x08, 0x28]);
    cpu.flags.carry = true;
    cpu.execute_next_instruction().unwrap();
    assert_eq!(cpu.read(0x01FF).unwrap(), 0x31);
    cpu.flags.carry = false;
    cpu.execute_next_instruction().unwrap();
    assert!(cpu.flags.carry);
    assert_eq!(cpu.s, 0xFF);
}

#[test]
fn brk_pushes_state_and_loads_the_irq_vector() {
    // BRK with the IRQ/BRK vector at $FFFE/$FFFF pointing to $8030.
    let mut prg = vec![0u8; 0x4000];
    prg[0x0000] = 0x00;
    prg[0x3FFE] = 0x30;
    prg[0x3FFF] = 0x80;
    let cartridge = Cartridge::new(prg, Vec::new(), Mapper::Nrom(Mapper0::new(0x4000)));
    let mut cpu = CPU::new(cartridge);
    cpu.pc = 0x8000;
    cpu.execute_next_instruction().unwrap();
    assert_eq!(cpu.pc, 0x8030);
    assert!(cpu.flags.interrupt_disable);
    assert_eq!(cpu.s, 0xFC);
    // Pushed PC ($8002, past the padding byte), high first, then the
    // status byte with B set.
    assert_eq!(cpu.read(0x01FF).unwrap(), 0x80);
    assert_eq!(cpu.read(0x01FE).unwrap(), 0x02);
    assert_eq!(cpu.read(0x01FD).unwrap(), 0x30);
}

#[test]
fn rti_restores_flags_and_pc() {
    // RTI after hand-laying a frame: status $E1, return PC $C123.
    let mut cpu = cpu_with_program(0xC000, &[0x40]);
    cpu.s = 0xFC;
    cpu.write(0x01FD, 0xE1).unwrap();
    cpu.write(0x01FE, 0x23).unwrap();
    cpu.write(0x01FF, 0xC1).unwrap();
    cpu.execute_next_instruction().unwrap();
    assert_eq!(cpu.pc, 0xC123);
    assert!(cpu.flags.carry && cpu.flags.overflow && cpu.flags.negative);
    assert_eq!(cpu.s, 0xFF);
}

#[test]
fn clock_pacing_idles_until_the_budget_is_spent() {
    // LDA #$01 costs 2 cycles: the fetch tick executes it whole, the
    // next tick idles, the third fetches the following instruction.
    let mut cpu = cpu_with_program(0xC000, &[0xA9, 0x01, 0xA9, 0x02]);
    cpu.run().unwrap();
    assert_eq!(cpu.a, 0x01);
    assert_eq!(cpu.cycles_remaining, 1);
    cpu.run().unwrap();
    assert_eq!(cpu.a, 0x01);
    assert_eq!(cpu.cycles_remaining, 0);
    cpu.run().unwrap();
    assert_eq!(cpu.a, 0x02);
    assert_eq!(cpu.pc, 0xC004);
}

#[test]
fn unmapped_register_windows_are_fatal() {
    let mut cpu = cpu_with_program(0xC000, &[0xEA]);
    assert_eq!(cpu.read(0x2000), Err(EmuError::UnmappedRegion));
    assert_eq!(cpu.read(0x3FFF), Err(EmuError::UnmappedRegion));
    assert_eq!(cpu.read(0x4017), Err(EmuError::UnmappedRegion));
    assert_eq!(cpu.read(0x401F), Err(EmuError::UnmappedRegion));
    assert_eq!(cpu.write(0x2000, 1), Err(EmuError::UnmappedRegion));
    // Executing from an unmapped window is fatal too.
    cpu.pc = 0x2000;
    assert_eq!(cpu.execute_next_instruction(), Err(EmuError::UnmappedRegion));
    // A load whose effective address falls in the window is fatal.
    let mut cpu = cpu_with_program(0xC000, &[0xAD, 0x00, 0x20]);
    assert_eq!(cpu.execute_next_instruction(), Err(EmuError::UnmappedRegion));
}

#[test]
fn addresses_outside_the_mapper_range_are_fatal() {
    let mut cpu = cpu_with_program(0xC000, &[0xEA]);
    // Cartridge space below the PRG-ROM window.
    assert_eq!(cpu.read(0x4020), Err(EmuError::AddressOutOfMapperRange));
    assert_eq!(cpu.read(0x7FFF), Err(EmuError::AddressOutOfMapperRange));
    // PRG-ROM is read-only: a store into it is fatal.
    assert_eq!(cpu.write(0x8000, 1), Err(EmuError::AddressOutOfMapperRange));
    let mut cpu = cpu_with_program(0xC000, &[0x8D, 0x00, 0xC0]);
    assert_eq!(cpu.execute_next_instruction(), Err(EmuError::AddressOutOfMapperRange));
}

#[test]
fn undocumented_opcodes_act_as_nop_with_their_cycle_count() {
    // $03 is entered as NOP with 8 cycles.
    let mut cpu = cpu_with_program(0xC000, &[0x03]);
    cpu.execute_next_instruction().unwrap();
    assert_eq!(cpu.pc, 0xC001);
    assert_eq!(cpu.cycles_remaining, 8);
    assert_eq!(cpu.a, 0);
}

#[test]
fn bit_test_reads_flags_from_memory() {
    // BIT $10 with RAM[$10] = $C0: N and V come from bits 7 and 6.
    let mut cpu = cpu_with_program(0xC000, &[0x24, 0x10]);
    cpu.write(0x0010, 0xC0).unwrap();
    cpu.a = 0x0F;
    cpu.execute_next_instruction().unwrap();
    assert!(cpu.flags.zero);
    assert!(cpu.flags.negative && cpu.flags.overflow);
    assert_eq!(cpu.a, 0x0F);

    let mut cpu = cpu_with_program(0xC000, &[0x24, 0x10]);
    cpu.write(0x0010, 0x01).unwrap();
    cpu.a = 0x01;
    cpu.execute_next_instruction().unwrap();
    assert!(!cpu.flags.zero && !cpu.flags.negative && !cpu.flags.overflow);
}

#[test]
fn logic_ops_combine_with_the_accumulator() {
    // AND #$0F; ORA #$80; EOR #$FF.
    let mut cpu = cpu_with_program(0xC000, &[0x29, 0x0F, 0x09, 0x80, 0x49, 0xFF]);
    cpu.a = 0x5A;
    cpu.execute_next_instruction().unwrap();
    assert_eq!(cpu.a, 0x0A);
    cpu.execute_next_instruction().unwrap();
    assert_eq!(cpu.a, 0x8A);
    assert!(cpu.flags.negative);
    cpu.execute_next_instruction().unwrap();
    assert_eq!(cpu.a, 0x75);
    assert!(!cpu.flags.negative && !cpu.flags.zero);
}

#[test]
fn inc_and_dec_rewrite_memory_with_wrap() {
    // INC $10 from $FF wraps to zero; DEC $11 from $00 wraps to $FF.
    let mut cpu = cpu_with_program(0xC000, &[0xE6, 0x10, 0xC6, 0x11]);
    cpu.write(0x0010, 0xFF).unwrap();
    cpu.write(0x0011, 0x00).unwrap();
    cpu.execute_next_instruction().unwrap();
    assert_eq!(cpu.read(0x0010).unwrap(), 0x00);
    assert!(cpu.flags.zero);
    cpu.execute_next_instruction().unwrap();
    assert_eq!(cpu.read(0x0011).unwrap(), 0xFF);
    assert!(cpu.flags.negative);
}

#[test]
fn transfers_set_flags_except_txs() {
    // TAX copies and sets N; TXS copies without touching flags; TSX
    // reads S back.
    let mut cpu = cpu_with_program(0xC000, &[0xAA, 0x9A, 0xBA]);
    cpu.a = 0x80;
    cpu.execute_next_instruction().unwrap();
    assert_eq!(cpu.x, 0x80);
    assert!(cpu.flags.negative);
    cpu.flags.negative = false;
    cpu.flags.zero = false;
    cpu.execute_next_instruction().unwrap();
    assert_eq!(cpu.s, 0x80);
    assert!(!cpu.flags.negative && !cpu.flags.zero);
    cpu.x = 0;
    cpu.execute_next_instruction().unwrap();
    assert_eq!(cpu.x, 0x80);
    assert!(cpu.flags.negative);
}

#[test]
fn cpx_and_cpy_compare_the_index_registers() {
    let mut cpu = cpu_with_program(0xC000, &[0xE0, 0x10, 0xC0, 0x10]);
    cpu.x = 0x10;
    cpu.y = 0x05;
    cpu.execute_next_instruction().unwrap();
    assert!(cpu.flags.carry && cpu.flags.zero);
    cpu.execute_next_instruction().unwrap();
    assert!(!cpu.flags.carry && !cpu.flags.zero && cpu.flags.negative);
}

#[test]
fn rts_increments_the_popped_address_with_wrap() {
    // A return address of $FFFF laid by hand resumes at $0000.
    let mut cpu = cpu_with_program(0xC000, &[0x60]);
    cpu.s = 0xFD;
    cpu.write(0x01FE, 0xFF).unwrap();
    cpu.write(0x01FF, 0xFF).unwrap();
    cpu.execute_next_instruction().unwrap();
    assert_eq!(cpu.pc, 0x0000);
    assert_eq!(cpu.s, 0xFF);
}

#[test]
fn indirect_jmp_without_the_page_wrap() {
    // JMP ($1080): an ordinary pointer reads its high byte at $1081.
    let mut cpu = cpu_with_program(0xC000, &[0x6C, 0x80, 0x10]);
    cpu.write(0x1080, 0x34).unwrap();
    cpu.write(0x1081, 0x12).unwrap();
    cpu.execute_next_instruction().unwrap();
    assert_eq!(cpu.pc, 0x1234);
}

#[test]
fn asl_memory_rewrites_the_cell() {
    // ASL $10: the memory form writes back and never pays the
    // page-cross cycle.
    let mut cpu = cpu_with_program(0xC000, &[0x06, 0x10]);
    cpu.write(0x0010, 0xC1).unwrap();
    cpu.execute_next_instruction().unwrap();
    assert_eq!(cpu.read(0x0010).unwrap(), 0x82);
    assert!(cpu.flags.carry && cpu.flags.negative);
    assert_eq!(cpu.cycles_remaining, 5);
}
