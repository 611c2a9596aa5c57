//! The processor: registers, stack discipline, addressing-mode
//! resolution, and the fetch-decode-execute dispatcher.
//!
//! Every method is specified against the machine model in
//! [`crate::model`]: a `CPU`'s view is a [`Machine`], and each
//! instruction handler is proved to transform that view exactly as the
//! model's spec function for the instruction says. The dispatcher
//! [`CPU::step`] refines [`spec_step`], and [`CPU::run`] iterates it to
//! a halt.

use vstd::prelude::*;

use crate::flags::{BREAK, BREAK2, CARRY, DECIMAL, INTERRUPT, NEGATIVE, OVERFLOW, ZERO};
use crate::memory::{Bus, Mem, MEMORY_SIZE};
use crate::model::{
    lemma_steps_snoc, spec_adc, spec_add_to_register_a, spec_and, spec_bit, spec_branch,
    spec_brk, spec_compare, spec_dec, spec_dex, spec_inc, spec_inx, spec_lda, spec_ldx, spec_ldy,
    spec_load, spec_load_mem, spec_lsr, spec_lsr_accumulator, spec_operand_address, spec_reset,
    spec_sbc, spec_set_register_a, spec_sta, spec_stack_pop, spec_stack_pop_u16, spec_stack_push,
    spec_stack_push_u16, spec_step, spec_tax, spec_txa, spec_update_flags, steps, write8, Machine,
    StepResult, LOAD_ORIGIN, RESET_VECTOR, STACK, STACK_RESET,
};
use crate::opcodes::{opcode_lookup, AddressingMode};

verus! {

/// The most instructions one call to [`CPU::run`] will retire before
/// giving up. Real programs halt or fault long before this; the bound
/// exists so that the dispatcher loop provably terminates.
pub const STEP_LIMIT: u64 = 0xFFFF_FFFF_FFFF_FFFF;

/// Why a run stopped without reaching the break instruction.
#[derive(Clone, Copy, Debug)]
pub enum RunError {
    /// The fetched byte has no entry in the instruction table: a
    /// program or table configuration error, reported with the byte
    /// and the address it was fetched from.
    UnknownOpcode { opcode: u8, address: u16 },
    /// The run retired [`STEP_LIMIT`] instructions without halting.
    StepLimit,
}

/// The processor state, owned together with its memory bus.
pub struct CPU {
    pub register_a: u8,
    pub register_x: u8,
    pub register_y: u8,
    pub status: u8,
    pub program_counter: u16,
    pub stack_pointer: u8,
    pub bus: Bus,
}

impl View for CPU {
    type V = Machine;

    open spec fn view(&self) -> Machine {
        Machine {
            a: self.register_a,
            x: self.register_x,
            y: self.register_y,
            status: self.status,
            pc: self.program_counter,
            sp: self.stack_pointer,
            mem: self.bus@,
        }
    }
}

impl Mem for CPU {
    open spec fn mem_view(&self) -> Seq<u8> {
        self.bus@
    }

    fn mem_read(&self, addr: u16) -> (data: u8) {
        self.bus.mem_read(addr)
    }

    fn mem_write(&mut self, addr: u16, data: u8)
        ensures
            final(self)@ == write8(old(self)@, addr, data),
    {
        self.bus.mem_write(addr, data);
    }

    fn mem_read_u16(&self, pos: u16) -> (data: u16) {
        self.bus.mem_read_u16(pos)
    }

    fn mem_write_u16(&mut self, pos: u16, data: u16)
        ensures
            final(self)@ == write8(
                write8(old(self)@, pos, (data % 256) as u8),
                pos.wrapping_add(1),
                (data / 256) as u8,
            ),
    {
        self.bus.mem_write_u16(pos, data);
    }
}

impl CPU {
    /// A processor over `bus` with zeroed registers, the stack pointer
    /// at its reset value, and the program counter at zero.
    pub fn new(bus: Bus) -> (cpu: CPU)
        ensures
            cpu@ == (Machine {
                a: 0,
                x: 0,
                y: 0,
                status: 0,
                pc: 0,
                sp: STACK_RESET,
                mem: bus@,
            }),
    {
        CPU {
            register_a: 0,
            register_x: 0,
            register_y: 0,
            stack_pointer: STACK_RESET,
            program_counter: 0,
            status: 0,
            bus: bus,
        }
    }

    /// Resolves the effective operand address for `mode`, with the
    /// program counter pointing just past the opcode byte. The
    /// sentinel mode has no address; the precondition rules it out, so
    /// a table entry that reached here by mistake is a verification
    /// error, not a runtime one.
    fn get_operand_address(&self, mode: &AddressingMode) -> (addr: u16)
        requires
            !(mode is NoneAddressing),
        ensures
            addr == spec_operand_address(self@, *mode),
    {
        proof {
            use_type_invariant(&self.bus);
        }
        match mode {
            AddressingMode::Immediate => self.program_counter,
            AddressingMode::ZeroPage => self.mem_read(self.program_counter) as u16,
            AddressingMode::Absolute => self.mem_read_u16(self.program_counter),
            AddressingMode::ZeroPage_X => {
                let pos = self.mem_read(self.program_counter);
                let addr = pos.wrapping_add(self.register_x) as u16;
                addr
            },
            AddressingMode::ZeroPage_Y => {
                let pos = self.mem_read(self.program_counter);
                let addr = pos.wrapping_add(self.register_y) as u16;
                addr
            },
            AddressingMode::Absolute_X => {
                let base = self.mem_read_u16(self.program_counter);
                let addr = base.wrapping_add(self.register_x as u16);
                addr
            },
            AddressingMode::Absolute_Y => {
                let base = self.mem_read_u16(self.program_counter);
                let addr = base.wrapping_add(self.register_y as u16);
                addr
            },
            AddressingMode::Indirect_X => {
                let base = self.mem_read(self.program_counter);
                let ptr: u8 = base.wrapping_add(self.register_x);
                let lo = self.mem_read(ptr as u16);
                let hi = self.mem_read(ptr.wrapping_add(1) as u16);
                (hi as u16) * 256 + (lo as u16)
            },
            AddressingMode::Indirect_Y => {
                let base = self.mem_read(self.program_counter);
                let lo = self.mem_read(base as u16);
                let hi = self.mem_read(base.wrapping_add(1) as u16);
                let deref_base = (hi as u16) * 256 + (lo as u16);
                let deref = deref_base.wrapping_add(self.register_y as u16);
                deref
            },
            // ruled out by the precondition: a table entry that sent a
            // mode-less instruction here would fail verification
            AddressingMode::NoneAddressing => vstd::pervasive::unreached(),
        }
    }

    /// Pops one byte off the stack page.
    fn stack_pop(&mut self) -> (data: u8)
        ensures
            ({
                let (machine, value) = spec_stack_pop(old(self)@);
                final(self)@ == machine && data == value
            }),
    {
        proof {
            use_type_invariant(&self.bus);
        }
        self.stack_pointer = self.stack_pointer.wrapping_add(1);
        self.mem_read(STACK + self.stack_pointer as u16)
    }

    /// Pushes one byte onto the stack page.
    fn stack_push(&mut self, data: u8)
        ensures
            final(self)@ == spec_stack_push(old(self)@, data),
    {
        proof {
            use_type_invariant(&self.bus);
        }
        self.mem_write(STACK + self.stack_pointer as u16, data);
        self.stack_pointer = self.stack_pointer.wrapping_sub(1);
    }

    /// Pushes a 16-bit value, high byte first.
    fn stack_push_u16(&mut self, data: u16)
        ensures
            final(self)@ == spec_stack_push_u16(old(self)@, data),
    {
        let hi = (data / 256) as u8;
        let lo = (data % 256) as u8;
        self.stack_push(hi);
        self.stack_push(lo);
    }

    /// Pops a 16-bit value, low byte first.
    fn stack_pop_u16(&mut self) -> (data: u16)
        ensures
            ({
                let (machine, value) = spec_stack_pop_u16(old(self)@);
                final(self)@ == machine && data == value
            }),
    {
        let lo = self.stack_pop();
        let hi = self.stack_pop();
        (hi as u16) * 256 + (lo as u16)
    }

    /// Zeroes the registers and flags, restores the stack pointer, and
    /// loads the program counter from the reset vector. Memory is
    /// untouched.
    pub fn reset(&mut self)
        ensures
            final(self)@ == spec_reset(old(self)@),
    {
        proof {
            use_type_invariant(&self.bus);
        }
        self.register_a = 0;
        self.register_x = 0;
        self.register_y = 0;
        self.status = 0;
        self.stack_pointer = STACK_RESET;
        self.program_counter = self.mem_read_u16(RESET_VECTOR);
    }

    /// Copies `program` into memory at the load origin and writes the
    /// origin into the reset vector. Registers are untouched.
    #[verifier::loop_isolation(false)]
    pub fn load(&mut self, program: Vec<u8>)
        requires
            program@.len() + LOAD_ORIGIN <= MEMORY_SIZE,
        ensures
            final(self)@ == spec_load(old(self)@, program@),
    {
        proof {
            use_type_invariant(&self.bus);
        }
        let ghost m0: Machine = self@;
        let mut i: usize = 0;
        while i < program.len()
            invariant
                i <= program@.len(),
                program@.len() + LOAD_ORIGIN <= MEMORY_SIZE,
                self@.a == m0.a,
                self@.x == m0.x,
                self@.y == m0.y,
                self@.status == m0.status,
                self@.pc == m0.pc,
                self@.sp == m0.sp,
                self@.mem.len() == m0.mem.len(),
                forall|j: int| 0 <= j < i ==> self@.mem[LOAD_ORIGIN + j] == program@[j],
                forall|j: int|
                    0 <= j < m0.mem.len() && !(LOAD_ORIGIN <= j < LOAD_ORIGIN + i)
                        ==> self@.mem[j] == m0.mem[j],
            decreases program@.len() - i,
        {
            self.mem_write(LOAD_ORIGIN + i as u16, program[i]);
            i = i + 1;
        }
        self.mem_write_u16(RESET_VECTOR, LOAD_ORIGIN);
        proof {
            use_type_invariant(&self.bus);
            assert(self@.mem =~= spec_load_mem(m0.mem, program@));
        }
    }

    /// Loads `program`, resets, and runs to the break instruction.
    pub fn load_and_run(&mut self, program: Vec<u8>) -> (r: Result<(), RunError>)
        requires
            program@.len() + LOAD_ORIGIN <= MEMORY_SIZE,
        ensures
            ({
                let started = spec_reset(spec_load(old(self)@, program@));
                match r {
                    Ok(()) => exists|n: nat|
                        steps(started, n) == StepResult::Halt(final(self)@),
                    Err(RunError::UnknownOpcode { opcode, address }) => exists|n: nat|
                        steps(started, n) == StepResult::Fault(final(self)@, opcode, address),
                    Err(RunError::StepLimit) => steps(started, STEP_LIMIT as nat)
                        == StepResult::Next(final(self)@),
                }
            }),
    {
        self.load(program);
        self.reset();
        self.run()
    }

    /// Runs the fetch-decode-execute loop until the break instruction
    /// halts it, an unknown opcode faults, or the step budget runs out.
    #[verifier::loop_isolation(false)]
    pub fn run(&mut self) -> (r: Result<(), RunError>)
        ensures
            ({
                let m0 = old(self)@;
                match r {
                    Ok(()) => exists|n: nat| steps(m0, n) == StepResult::Halt(final(self)@),
                    Err(RunError::UnknownOpcode { opcode, address }) => exists|n: nat|
                        steps(m0, n) == StepResult::Fault(final(self)@, opcode, address),
                    Err(RunError::StepLimit) => steps(m0, STEP_LIMIT as nat)
                        == StepResult::Next(final(self)@),
                }
            }),
    {
        let ghost m0: Machine = self@;
        let ghost mut taken: nat = 0;
        let mut remaining: u64 = STEP_LIMIT;
        loop
            invariant
                taken + remaining == STEP_LIMIT,
                steps(m0, taken) == StepResult::Next(self@),
            decreases remaining,
        {
            if remaining == 0 {
                return Err(RunError::StepLimit);
            }
            remaining = remaining - 1;
            let ghost before: Machine = self@;
            let stepped = self.step();
            proof {
                lemma_steps_snoc(m0, taken, before);
            }
            match stepped {
                Ok(false) => {
                    proof {
                        taken = taken + 1;
                    }
                },
                Ok(true) => {
                    return Ok(());
                },
                Err(e) => {
                    return Err(e);
                },
            }
        }
    }

    /// Fetches, decodes and executes one instruction. Returns
    /// `Ok(true)` when it was the break instruction (the machine
    /// halted), `Ok(false)` when the machine is ready for the next
    /// fetch, and the decode fault for a byte the table does not know.
    pub fn step(&mut self) -> (r: Result<bool, RunError>)
        ensures
            ({
                match r {
                    Ok(true) => spec_step(old(self)@) == StepResult::Halt(final(self)@),
                    Ok(false) => spec_step(old(self)@) == StepResult::Next(final(self)@),
                    Err(e) => (e matches RunError::UnknownOpcode { opcode, address }
                        && spec_step(old(self)@) == StepResult::Fault(
                        final(self)@,
                        opcode,
                        address,
                    )),
                }
            }),
    {
        proof {
            use_type_invariant(&self.bus);
        }
        let code = self.mem_read(self.program_counter);
        let at = self.program_counter;
        self.program_counter = self.program_counter.wrapping_add(1);
        let program_counter_state = self.program_counter;

        let op = match opcode_lookup(code) {
            Some(op) => op,
            None => {
                return Err(RunError::UnknownOpcode { opcode: code, address: at });
            },
        };

        match code {
            // LDA
            0xA9 | 0xA5 | 0xB5 | 0xAD | 0xBD | 0xB9 | 0xA1 | 0xB1 => {
                self.lda(&op.mode);
            },
            // LDX
            0xA2 | 0xA6 | 0xB6 | 0xAE | 0xBE => {
                self.ldx(&op.mode);
            },
            // LDY
            0xA0 | 0xA4 | 0xB4 | 0xAC | 0xBC => {
                self.ldy(&op.mode);
            },
            // STA
            0x85 | 0x95 | 0x8D | 0x9D | 0x99 | 0x81 | 0x91 => {
                self.sta(&op.mode);
            },
            // STX
            0x86 | 0x96 | 0x8E => {
                let addr = self.get_operand_address(&op.mode);
                self.mem_write(addr, self.register_x);
            },
            // CPX
            0xE0 | 0xE4 | 0xEC => {
                self.compare(&op.mode, self.register_x);
            },
            // JSR
            0x20 => {
                self.stack_push_u16(self.program_counter.wrapping_add(1));
                proof {
                    use_type_invariant(&self.bus);
                }
                let target_address = self.mem_read_u16(self.program_counter);
                self.program_counter = target_address;
            },
            // RTS
            0x60 => {
                let value = self.stack_pop_u16();
                self.program_counter = value.wrapping_add(1);
            },
            // ADC
            0x69 | 0x65 | 0x75 | 0x6D | 0x7D | 0x79 | 0x61 | 0x71 => {
                self.adc(&op.mode);
            },
            // SBC
            0xE9 | 0xE5 | 0xF5 | 0xED | 0xFD | 0xF9 | 0xE1 | 0xF1 => {
                self.sbc(&op.mode);
            },
            // AND
            0x29 | 0x25 | 0x35 | 0x2D | 0x3D | 0x39 | 0x21 | 0x31 => {
                self.and(&op.mode);
            },
            // BNE
            0xD0 => {
                self.branch(self.status & ZERO == 0);
            },
            // BEQ
            0xF0 => {
                self.branch(self.status & ZERO != 0);
            },
            // BVS
            0x70 => {
                self.branch(self.status & OVERFLOW != 0);
            },
            // BVC
            0x50 => {
                self.branch(self.status & OVERFLOW == 0);
            },
            // BPL
            0x10 => {
                self.branch(self.status & NEGATIVE == 0);
            },
            // BMI
            0x30 => {
                self.branch(self.status & NEGATIVE != 0);
            },
            // BCS
            0xB0 => {
                self.branch(self.status & CARRY != 0);
            },
            // BCC
            0x90 => {
                self.branch(self.status & CARRY == 0);
            },
            0xCA => {
                self.dex();
            },
            0xAA => {
                self.tax();
            },
            0x8A => {
                self.txa();
            },
            0xE8 => {
                self.inx();
            },
            // BRK
            0x00 => {
                self.brk();
                return Ok(true);
            },
            // DEC
            0xC6 | 0xD6 | 0xCE | 0xDE => {
                self.dec(&op.mode);
            },
            // CLD
            0xD8 => {
                self.status = self.status & !DECIMAL;
            },
            // CLI
            0x58 => {
                self.status = self.status & !INTERRUPT;
            },
            // CLV
            0xB8 => {
                self.status = self.status & !OVERFLOW;
            },
            // CLC
            0x18 => {
                self.status = self.status & !CARRY;
            },
            // SEC
            0x38 => {
                self.status = self.status | CARRY;
            },
            // SEI
            0x78 => {
                self.status = self.status | INTERRUPT;
            },
            // SED
            0xF8 => {
                self.status = self.status | DECIMAL;
            },
            // BIT
            0x24 | 0x2C => {
                self.bit(&op.mode);
            },
            // CMP
            0xC9 | 0xC5 | 0xD5 | 0xCD | 0xDD | 0xD9 | 0xC1 | 0xD1 => {
                self.compare(&op.mode, self.register_a);
            },
            // LSR on the accumulator
            0x4A => {
                self.lsr_accumulator();
            },
            // LSR on memory
            0x46 | 0x56 | 0x4E | 0x5E => {
                self.lsr(&op.mode);
            },
            // INC
            0xE6 | 0xF6 | 0xEE | 0xFE => {
                self.inc(&op.mode);
            },
            // JMP
            0x4C => {
                let mem_address = self.mem_read_u16(self.program_counter);
                self.program_counter = mem_address;
            },
            // NOP
            0xEA => {},
            // every opcode with a table entry is matched above
            _ => {
                proof {
                    assert(false);
                }
            },
        }

        if program_counter_state == self.program_counter {
            self.program_counter = self.program_counter.wrapping_add((op.len - 1) as u16);
        }

        Ok(false)
    }

    /// Records `result` in the Zero and Negative flags.
    fn update_zero_and_negative_flags(&mut self, result: u8)
        ensures
            final(self)@ == spec_update_flags(old(self)@, result),
    {
        if result == 0 {
            self.status = self.status | ZERO;
        } else {
            self.status = self.status & !ZERO;
        }

        if result & NEGATIVE != 0 {
            self.status = self.status | NEGATIVE;
        } else {
            self.status = self.status & !NEGATIVE;
        }
    }

    /// Loads `value` into the accumulator and updates Zero and
    /// Negative from it.
    fn set_register_a(&mut self, value: u8)
        ensures
            final(self)@ == spec_set_register_a(old(self)@, value),
    {
        self.register_a = value;
        self.update_zero_and_negative_flags(self.register_a);
    }

    /// The add-with-carry core: accumulator plus `data` plus carry-in,
    /// with the Carry and Overflow flags computed from the 9-bit sum.
    fn add_to_register_a(&mut self, data: u8)
        ensures
            final(self)@ == spec_add_to_register_a(old(self)@, data),
    {
        let sum: u16 = self.register_a as u16 + data as u16 + (
        if self.status & CARRY != 0 {
            1
        } else {
            0
        });

        let carry = sum > 0xFF;
        if carry {
            self.status = self.status | CARRY;
        } else {
            self.status = self.status & !CARRY;
        }

        let result = (sum % 256) as u8;

        if (data ^ result) & (result ^ self.register_a) & 0x80 != 0 {
            self.status = self.status | OVERFLOW;
        } else {
            self.status = self.status & !OVERFLOW;
        }

        self.set_register_a(result);
    }

    /// Compares a register with the operand: Carry means "no borrow",
    /// Zero and Negative come from the wrapping difference.
    fn compare(&mut self, mode: &AddressingMode, compare_with: u8)
        requires
            !(mode is NoneAddressing),
        ensures
            final(self)@ == spec_compare(old(self)@, *mode, compare_with),
    {
        proof {
            use_type_invariant(&self.bus);
        }
        let addr = self.get_operand_address(mode);
        let data = self.mem_read(addr);
        if data <= compare_with {
            self.status = self.status | CARRY;
        } else {
            self.status = self.status & !CARRY;
        }

        self.update_zero_and_negative_flags(compare_with.wrapping_sub(data));
    }

    /// Redirects the program counter by the signed offset under it
    /// when `condition` holds.
    fn branch(&mut self, condition: bool)
        ensures
            final(self)@ == spec_branch(old(self)@, condition),
    {
        proof {
            use_type_invariant(&self.bus);
        }
        if condition {
            let jump = self.mem_read(self.program_counter);
            let offset: u16 = if jump < 0x80 {
                jump as u16
            } else {
                jump as u16 + 0xFF00
            };
            let jump_addr = self.program_counter.wrapping_add(1).wrapping_add(offset);

            self.program_counter = jump_addr;
        }
    }

    fn lda(&mut self, mode: &AddressingMode)
        requires
            !(mode is NoneAddressing),
        ensures
            final(self)@ == spec_lda(old(self)@, *mode),
    {
        proof {
            use_type_invariant(&self.bus);
        }
        let addr = self.get_operand_address(mode);
        let value = self.mem_read(addr);
        self.set_register_a(value);
    }

    fn ldx(&mut self, mode: &AddressingMode)
        requires
            !(mode is NoneAddressing),
        ensures
            final(self)@ == spec_ldx(old(self)@, *mode),
    {
        proof {
            use_type_invariant(&self.bus);
        }
        let addr = self.get_operand_address(mode);
        let data = self.mem_read(addr);
        self.register_x = data;
        self.update_zero_and_negative_flags(self.register_x);
    }

    fn ldy(&mut self, mode: &AddressingMode)
        requires
            !(mode is NoneAddressing),
        ensures
            final(self)@ == spec_ldy(old(self)@, *mode),
    {
        proof {
            use_type_invariant(&self.bus);
        }
        let addr = self.get_operand_address(mode);
        let data = self.mem_read(addr);
        self.register_y = data;
        self.update_zero_and_negative_flags(self.register_y);
    }

    fn adc(&mut self, mode: &AddressingMode)
        requires
            !(mode is NoneAddressing),
        ensures
            final(self)@ == spec_adc(old(self)@, *mode),
    {
        proof {
            use_type_invariant(&self.bus);
        }
        let addr = self.get_operand_address(mode);
        let value = self.mem_read(addr);
        self.add_to_register_a(value);
    }

    fn sbc(&mut self, mode: &AddressingMode)
        requires
            !(mode is NoneAddressing),
        ensures
            final(self)@ == spec_sbc(old(self)@, *mode),
    {
        proof {
            use_type_invariant(&self.bus);
        }
        let addr = self.get_operand_address(mode);
        let data = self.mem_read(addr);
        self.add_to_register_a(255 - data);
    }

    fn dex(&mut self)
        ensures
            final(self)@ == spec_dex(old(self)@),
    {
        self.register_x = self.register_x.wrapping_sub(1);
        self.update_zero_and_negative_flags(self.register_x);
    }

    fn dec(&mut self, mode: &AddressingMode) -> (data: u8)
        requires
            !(mode is NoneAddressing),
        ensures
            final(self)@ == spec_dec(old(self)@, *mode),
    {
        proof {
            use_type_invariant(&self.bus);
        }
        let addr = self.get_operand_address(mode);
        let mut data = self.mem_read(addr);
        data = data.wrapping_sub(1);
        self.mem_write(addr, data);
        self.update_zero_and_negative_flags(data);
        data
    }

    fn sta(&mut self, mode: &AddressingMode)
        requires
            !(mode is NoneAddressing),
        ensures
            final(self)@ == spec_sta(old(self)@, *mode),
    {
        proof {
            use_type_invariant(&self.bus);
        }
        let addr = self.get_operand_address(mode);
        self.mem_write(addr, self.register_a);
    }

    fn tax(&mut self)
        ensures
            final(self)@ == spec_tax(old(self)@),
    {
        self.register_x = self.register_a;
        self.update_zero_and_negative_flags(self.register_x);
    }

    fn txa(&mut self)
        ensures
            final(self)@ == spec_txa(old(self)@),
    {
        self.register_a = self.register_x;
        self.update_zero_and_negative_flags(self.register_a);
    }

    fn inx(&mut self)
        ensures
            final(self)@ == spec_inx(old(self)@),
    {
        self.register_x = self.register_x.wrapping_add(1);
        self.update_zero_and_negative_flags(self.register_x);
    }

    fn inc(&mut self, mode: &AddressingMode) -> (data: u8)
        requires
            !(mode is NoneAddressing),
        ensures
            final(self)@ == spec_inc(old(self)@, *mode),
    {
        proof {
            use_type_invariant(&self.bus);
        }
        let addr = self.get_operand_address(mode);
        let mut data = self.mem_read(addr);
        data = data.wrapping_add(1);
        self.mem_write(addr, data);
        self.update_zero_and_negative_flags(data);
        data
    }

    fn brk(&mut self)
        ensures
            final(self)@ == spec_brk(old(self)@),
    {
        self.status = self.status | BREAK | BREAK2;
    }

    fn and(&mut self, mode: &AddressingMode)
        requires
            !(mode is NoneAddressing),
        ensures
            final(self)@ == spec_and(old(self)@, *mode),
    {
        proof {
            use_type_invariant(&self.bus);
        }
        let addr = self.get_operand_address(mode);
        let data = self.mem_read(addr);
        self.set_register_a(data & self.register_a);
    }

    fn lsr_accumulator(&mut self)
        ensures
            final(self)@ == spec_lsr_accumulator(old(self)@),
    {
        let mut data = self.register_a;
        if data & 1 == 1 {
            self.status = self.status | CARRY;
        } else {
            self.status = self.status & !CARRY;
        }
        data = data / 2;
        self.set_register_a(data);
    }

    fn lsr(&mut self, mode: &AddressingMode) -> (data: u8)
        requires
            !(mode is NoneAddressing),
        ensures
            final(self)@ == spec_lsr(old(self)@, *mode),
    {
        proof {
            use_type_invariant(&self.bus);
        }
        let addr = self.get_operand_address(mode);
        let mut data = self.mem_read(addr);
        if data & 1 == 1 {
            self.status = self.status | CARRY;
        } else {
            self.status = self.status & !CARRY;
        }
        data = data / 2;
        self.mem_write(addr, data);
        self.update_zero_and_negative_flags(data);
        data
    }

    fn bit(&mut self, mode: &AddressingMode)
        requires
            !(mode is NoneAddressing),
        ensures
            final(self)@ == spec_bit(old(self)@, *mode),
    {
        proof {
            use_type_invariant(&self.bus);
        }
        let addr = self.get_operand_address(mode);
        let data = self.mem_read(addr);
        let and = self.register_a & data;

        if and == 0 {
            self.status = self.status | ZERO;
        } else {
            self.status = self.status & !ZERO;
        }

        if data & 0b1000_0000 > 0 {
            self.status = self.status | NEGATIVE;
        } else {
            self.status = self.status & !NEGATIVE;
        }

        if data & 0b0100_0000 > 0 {
            self.status = self.status | OVERFLOW;
        } else {
            self.status = self.status & !OVERFLOW;
        }
    }
}

} // verus!
