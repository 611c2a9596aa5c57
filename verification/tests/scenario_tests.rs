//! End-to-end programs run from a fresh reset, and the edge cases of
//! the flag and wraparound semantics.

use mos6502::{Bus, Mem, CPU};

const CARRY: u8 = 0b0000_0001;
const ZERO: u8 = 0b0000_0010;
const INTERRUPT: u8 = 0b0000_0100;
const DECIMAL: u8 = 0b0000_1000;
const BREAK: u8 = 0b0001_0000;
const BREAK2: u8 = 0b0010_0000;
const OVERFLOW: u8 = 0b0100_0000;
const NEGATIVE: u8 = 0b1000_0000;

fn fresh_cpu() -> CPU {
    CPU::new(Bus::new())
}

#[test]
fn test_lda_brk_from_fresh_reset() {
    let mut cpu = fresh_cpu();
    cpu.load_and_run(vec![0xa9, 0x05, 0x00]).unwrap();

    assert_eq!(cpu.register_a, 0x05);
    assert_eq!(cpu.status & ZERO, 0);
    assert_eq!(cpu.status & NEGATIVE, 0);
}

#[test]
fn test_lda_tax_inx_adc_program() {
    let mut cpu = fresh_cpu();
    cpu.load_and_run(vec![0xa9, 0xc0, 0xaa, 0xe8, 0x69, 0xc4, 0x00]).unwrap();

    assert_eq!(cpu.register_x, 0xc1);
    assert_eq!(cpu.register_a, 0x84);
    assert_eq!(cpu.register_a, 132);
    assert_ne!(cpu.status & CARRY, 0);
    assert_ne!(cpu.status & NEGATIVE, 0);
    // 0xC0 + 0xC4 is -64 + -60 = -124, which fits in a signed byte:
    // the add-with-carry overflow rule leaves Overflow clear here.
    assert_eq!(cpu.status & OVERFLOW, 0);
}

#[test]
fn test_countdown_loop_with_dex_cpx_bne() {
    let mut cpu = fresh_cpu();
    cpu.load_and_run(vec![
        0xa2, 0x08, 0xca, 0x8e, 0x00, 0x02, 0xe0, 0x03, 0xd0, 0xf8, 0x8e, 0x01, 0x02, 0x00,
    ])
    .unwrap();

    assert_eq!(cpu.register_x, 0x03);
    assert_eq!(cpu.mem_read(0x0200), 0x03);
    assert_eq!(cpu.mem_read(0x0201), 0x03);
}

#[test]
fn test_adc_signed_overflow_0x80_plus_0x80() {
    let mut cpu = fresh_cpu();
    cpu.load_and_run(vec![0xa9, 0x80, 0x69, 0x80, 0x00]).unwrap();

    assert_eq!(cpu.register_a, 0x00);
    assert_eq!(
        cpu.status & (CARRY | ZERO | OVERFLOW | NEGATIVE),
        CARRY | ZERO | OVERFLOW
    );
    // the Decimal and Interrupt bits stay untouched
    assert_eq!(cpu.status & (DECIMAL | INTERRUPT), 0);
}

#[test]
fn test_branch_wraps_backward_through_address_top() {
    let mut cpu = fresh_cpu();
    // LDA #1 (Zero clear), then BNE with offset -20: the target is
    // 0xFF14 - 20 = 0xFF00, and the 16-bit add wraps internally.
    cpu.mem_write(0xFF10, 0xa9);
    cpu.mem_write(0xFF11, 0x01);
    cpu.mem_write(0xFF12, 0xd0);
    cpu.mem_write(0xFF13, 0xec);
    cpu.mem_write_u16(0xFFFC, 0xFF10);
    cpu.reset();
    cpu.run().unwrap();

    // the break instruction at 0xFF00 halted the run
    assert_eq!(cpu.program_counter, 0xFF01);
    assert_eq!(cpu.register_a, 0x01);
}

#[test]
fn test_branch_wraps_forward_past_address_top() {
    let mut cpu = fresh_cpu();
    // LDA #1 at 0xFFF0, then BNE with offset +0x1C at 0xFFF2: the
    // target 0xFFF4 + 0x1C wraps around to 0x0010.
    cpu.mem_write(0xFFF0, 0xa9);
    cpu.mem_write(0xFFF1, 0x01);
    cpu.mem_write(0xFFF2, 0xd0);
    cpu.mem_write(0xFFF3, 0x1c);
    cpu.mem_write_u16(0xFFFC, 0xFFF0);
    cpu.reset();
    cpu.run().unwrap();

    assert_eq!(cpu.program_counter, 0x0011);
}

#[test]
fn test_reset_twice_gives_identical_state() {
    let mut cpu = fresh_cpu();
    cpu.load(vec![0xa9, 0x05, 0x00]);
    cpu.reset();
    let first = (
        cpu.register_a,
        cpu.register_x,
        cpu.register_y,
        cpu.status,
        cpu.program_counter,
        cpu.stack_pointer,
    );
    cpu.reset();
    let second = (
        cpu.register_a,
        cpu.register_x,
        cpu.register_y,
        cpu.status,
        cpu.program_counter,
        cpu.stack_pointer,
    );

    assert_eq!(first, second);
}

#[test]
fn test_reset_state_after_load() {
    let mut cpu = fresh_cpu();
    cpu.load_and_run(vec![0xa9, 0x05, 0x00]).unwrap();
    cpu.reset();

    assert_eq!(cpu.register_a, 0);
    assert_eq!(cpu.register_x, 0);
    assert_eq!(cpu.register_y, 0);
    assert_eq!(cpu.status, 0);
    assert_eq!(cpu.stack_pointer, 0xFD);
    assert_eq!(cpu.program_counter, 0x0600);
}

#[test]
fn test_jsr_rts_round_trip() {
    let mut cpu = fresh_cpu();
    // JSR $0605; BRK; NOP; then the subroutine LDA #$2A; RTS
    cpu.load_and_run(vec![0x20, 0x05, 0x06, 0x00, 0xea, 0xa9, 0x2a, 0x60]).unwrap();

    assert_eq!(cpu.register_a, 0x2a);
    // the pushed word popped back off: the stack pointer is restored
    assert_eq!(cpu.stack_pointer, 0xFD);
    // the break instruction just after the call site ended the run
    assert_eq!(cpu.program_counter, 0x0604);
    assert_ne!(cpu.status & (BREAK | BREAK2), 0);
}

#[test]
fn test_brk_sets_break_flags_and_halts() {
    let mut cpu = fresh_cpu();
    cpu.load_and_run(vec![0x00]).unwrap();

    assert_eq!(cpu.status & (BREAK | BREAK2), BREAK | BREAK2);
    assert_eq!(cpu.program_counter, 0x0601);
}

#[test]
fn test_step_runs_one_instruction_at_a_time() {
    let mut cpu = fresh_cpu();
    cpu.load(vec![0xa9, 0x05, 0x00]);
    cpu.reset();

    let halted = cpu.step().unwrap();
    assert!(!halted);
    assert_eq!(cpu.register_a, 0x05);
    assert_eq!(cpu.program_counter, 0x0602);

    let halted = cpu.step().unwrap();
    assert!(halted);
    assert_eq!(cpu.status & (BREAK | BREAK2), BREAK | BREAK2);
}
