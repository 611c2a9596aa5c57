use mos6502::{Bus, Mem, CPU};

#[test]
fn test_0xa9_lda_immediate_load_data() {
    let bus = Bus::new();
    let mut cpu = CPU::new(bus);

    cpu.load(vec![0xa9, 0x05, 0x00]);
    cpu.reset();
    cpu.program_counter = 0x0600;
    cpu.run().unwrap();

    assert_eq!(cpu.register_a, 0x05);
    assert!(cpu.status & 0b0000_0010 == 0b00);
    assert!(cpu.status & 0b1000_0000 == 0);
}

#[test]
fn test_0xa9_lda_zero_flag() {
    let bus = Bus::new();
    let mut cpu = CPU::new(bus);

    cpu.load(vec![0xa9, 0x00, 0x00]);
    cpu.reset();
    cpu.program_counter = 0x0600;
    cpu.run().unwrap();

    assert!(cpu.status & 0b0000_0010 == 0b10);
}

#[test]
fn test_0xaa_tax_move_a_to_x() {
    let bus = Bus::new();
    let mut cpu = CPU::new(bus);
    cpu.register_a = 10;

    cpu.load(vec![0xa9, 0x0A, 0xaa, 0x00]);
    cpu.reset();
    cpu.program_counter = 0x0600;
    cpu.run().unwrap();

    assert_eq!(cpu.register_x, 10)
}

#[test]
fn test_5_ops_working_together() {
    let bus = Bus::new();
    let mut cpu = CPU::new(bus);
    cpu.load(vec![0xa9, 0xc0, 0xaa, 0xe8, 0x00]);
    cpu.reset();
    cpu.program_counter = 0x0600;
    cpu.run().unwrap();

    assert_eq!(cpu.register_x, 0xc1)
}

#[test]
fn test_inx_overflow() {
    let bus = Bus::new();
    let mut cpu = CPU::new(bus);
    cpu.register_x = 0xff;

    cpu.load(vec![0xa9, 0xff, 0xaa, 0xe8, 0xe8, 0x00]);
    cpu.reset();
    cpu.program_counter = 0x0600;
    cpu.run().unwrap();

    assert_eq!(cpu.register_x, 1)
}

#[test]
fn test_lda_from_memory() {
    let bus = Bus::new();
    let mut cpu = CPU::new(bus);
    cpu.mem_write(0x10, 0x55);

    cpu.load(vec![0xa5, 0x10, 0x00]);
    cpu.reset();
    cpu.program_counter = 0x0600;
    cpu.run().unwrap();

    assert_eq!(cpu.register_a, 0x55);
}
