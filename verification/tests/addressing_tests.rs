//! The addressing modes, including the zero-page and 16-bit
//! wraparound edges.

use mos6502::{Bus, Mem, CPU};

fn fresh_cpu() -> CPU {
    CPU::new(Bus::new())
}

#[test]
fn test_zero_page_x_wraps_within_zero_page() {
    let mut cpu = fresh_cpu();
    // base 0xFF plus index 0x01 resolves to 0x00, not 0x100
    cpu.mem_write(0x0000, 0x42);
    cpu.load_and_run(vec![0xa2, 0x01, 0xb5, 0xff, 0x00]).unwrap();

    assert_eq!(cpu.register_a, 0x42);
}

#[test]
fn test_zero_page_y_indexing() {
    let mut cpu = fresh_cpu();
    cpu.mem_write(0x11, 0xab);
    cpu.load_and_run(vec![0xa0, 0x01, 0xb6, 0x10, 0x00]).unwrap();

    assert_eq!(cpu.register_x, 0xab);
}

#[test]
fn test_absolute_addressing() {
    let mut cpu = fresh_cpu();
    cpu.mem_write(0x1234, 0x99);
    cpu.load_and_run(vec![0xad, 0x34, 0x12, 0x00]).unwrap();

    assert_eq!(cpu.register_a, 0x99);
}

#[test]
fn test_absolute_x_addressing() {
    let mut cpu = fresh_cpu();
    cpu.mem_write(0x1234, 0x77);
    cpu.load_and_run(vec![0xa2, 0x01, 0xbd, 0x33, 0x12, 0x00]).unwrap();

    assert_eq!(cpu.register_a, 0x77);
}

#[test]
fn test_absolute_y_addressing() {
    let mut cpu = fresh_cpu();
    cpu.mem_write(0x1234, 0x77);
    cpu.load_and_run(vec![0xa0, 0x01, 0xb9, 0x33, 0x12, 0x00]).unwrap();

    assert_eq!(cpu.register_a, 0x77);
}

#[test]
fn test_indirect_x_addressing() {
    let mut cpu = fresh_cpu();
    cpu.mem_write(0x24, 0x34);
    cpu.mem_write(0x25, 0x12);
    cpu.mem_write(0x1234, 0x77);
    cpu.load_and_run(vec![0xa2, 0x04, 0xa1, 0x20, 0x00]).unwrap();

    assert_eq!(cpu.register_a, 0x77);
}

#[test]
fn test_indirect_x_pointer_wraps_within_zero_page() {
    let mut cpu = fresh_cpu();
    // base 0xFF plus index 0x01 gives pointer 0x00; the word is read
    // from 0x00/0x01
    cpu.mem_write(0x00, 0x10);
    cpu.mem_write(0x01, 0x02);
    cpu.mem_write(0x0210, 0x5a);
    cpu.load_and_run(vec![0xa2, 0x01, 0xa1, 0xff, 0x00]).unwrap();

    assert_eq!(cpu.register_a, 0x5a);
}

#[test]
fn test_indirect_y_addressing() {
    let mut cpu = fresh_cpu();
    cpu.mem_write(0x20, 0x30);
    cpu.mem_write(0x21, 0x12);
    cpu.mem_write(0x1234, 0x55);
    cpu.load_and_run(vec![0xa0, 0x04, 0xb1, 0x20, 0x00]).unwrap();

    assert_eq!(cpu.register_a, 0x55);
}

#[test]
fn test_indirect_y_high_byte_fetch_wraps_within_zero_page() {
    let mut cpu = fresh_cpu();
    // the pointer 0xFF takes its low byte from 0xFF and its high byte
    // from 0x00, never from 0x100
    cpu.mem_write(0xFF, 0x00);
    cpu.mem_write(0x00, 0x02);
    cpu.mem_write(0x0201, 0x66);
    cpu.load_and_run(vec![0xa0, 0x01, 0xb1, 0xff, 0x00]).unwrap();

    assert_eq!(cpu.register_a, 0x66);
}

#[test]
fn test_jmp_absolute_redirects() {
    let mut cpu = fresh_cpu();
    // JMP $0605 skips over LDA #$FF straight to the break instruction
    cpu.load_and_run(vec![0x4c, 0x05, 0x06, 0xa9, 0xff, 0x00]).unwrap();

    assert_eq!(cpu.register_a, 0x00);
    assert_eq!(cpu.program_counter, 0x0606);
}

#[test]
fn test_sta_writes_accumulator() {
    let mut cpu = fresh_cpu();
    cpu.load_and_run(vec![0xa9, 0x42, 0x85, 0x10, 0x00]).unwrap();

    assert_eq!(cpu.mem_read(0x10), 0x42);
}

#[test]
fn test_stx_writes_index_x() {
    let mut cpu = fresh_cpu();
    cpu.load_and_run(vec![0xa2, 0x42, 0x86, 0x10, 0x00]).unwrap();

    assert_eq!(cpu.mem_read(0x10), 0x42);
}
