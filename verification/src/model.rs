//! The machine model: the meaning of every instruction as a pure
//! function on processor state.
//!
//! [`Machine`] is the mathematical image of the processor together with
//! its memory, and [`spec_step`] is the small-step semantics of the
//! fetch-decode-execute cycle: it decodes the byte under the program
//! counter and returns the machine after that one instruction, a halt,
//! or a decode fault. The executable engine in [`crate::cpu`] is proved
//! to follow these functions step by step, and the laws in
//! [`crate::laws`] are proved about them.

use vstd::prelude::*;

use crate::flags::{BREAK, BREAK2, CARRY, DECIMAL, INTERRUPT, NEGATIVE, OVERFLOW, ZERO};
use crate::flags::spec_update_zero_and_negative;
use crate::memory::MEMORY_SIZE;
use crate::opcodes::{spec_opcode, AddressingMode};

verus! {

/// The base of the fixed stack page: the stack pointer is an offset
/// into `0x0100..=0x01FF`.
pub const STACK: u16 = 0x0100;

/// The stack pointer's value after a reset.
pub const STACK_RESET: u8 = 0xFD;

/// The origin a program is loaded at, and the value written to the
/// reset vector by a load.
pub const LOAD_ORIGIN: u16 = 0x0600;

/// The address of the reset vector: the little-endian word here is the
/// program counter's value after a reset.
pub const RESET_VECTOR: u16 = 0xFFFC;

/// Processor state together with its memory, as plain mathematical
/// values: the three 8-bit registers, the status byte, the 16-bit
/// program counter, the 8-bit stack pointer, and one byte per address.
#[verifier::ext_equal]
pub struct Machine {
    pub a: u8,
    pub x: u8,
    pub y: u8,
    pub status: u8,
    pub pc: u16,
    pub sp: u8,
    pub mem: Seq<u8>,
}

/// The outcome of one fetch-decode-execute step.
pub enum StepResult {
    /// The instruction retired and the machine is ready for the next
    /// fetch.
    Next(Machine),
    /// The instruction was the break instruction: the machine halts in
    /// this state.
    Halt(Machine),
    /// The fetched byte has no entry in the instruction table. The
    /// machine state (program counter already past the bad byte), the
    /// byte itself, and its address.
    Fault(Machine, u8, u16),
}

/// A machine is well formed when its memory covers exactly the 16-bit
/// address space.
pub open spec fn wf(m: Machine) -> bool {
    m.mem.len() == MEMORY_SIZE
}

/// The byte at `addr`.
pub open spec fn read8(m: Machine, addr: u16) -> u8 {
    m.mem[addr as int]
}

/// The machine with `value` stored at `addr`.
pub open spec fn write8(m: Machine, addr: u16, value: u8) -> Machine {
    Machine {
        a: m.a,
        x: m.x,
        y: m.y,
        status: m.status,
        pc: m.pc,
        sp: m.sp,
        mem: m.mem.update(addr as int, value),
    }
}

/// A little-endian pair assembled into a 16-bit word.
pub open spec fn combine16(lo: u8, hi: u8) -> u16 {
    (hi * 256 + lo) as u16
}

/// The little-endian word whose low byte is at `pos`; the high byte's
/// address wraps around the top of the address space.
pub open spec fn read16(m: Machine, pos: u16) -> u16 {
    combine16(read8(m, pos), read8(m, pos.wrapping_add(1)))
}

/// The machine with `status` replaced.
pub open spec fn with_status(m: Machine, status: u8) -> Machine {
    Machine { a: m.a, x: m.x, y: m.y, status, pc: m.pc, sp: m.sp, mem: m.mem }
}

/// The machine with the program counter replaced.
pub open spec fn with_pc(m: Machine, pc: u16) -> Machine {
    Machine { a: m.a, x: m.x, y: m.y, status: m.status, pc, sp: m.sp, mem: m.mem }
}

/// The machine after `set_register_a`: the accumulator takes `value`
/// and the Zero and Negative flags are updated from it.
pub open spec fn spec_set_register_a(m: Machine, value: u8) -> Machine {
    Machine {
        a: value,
        x: m.x,
        y: m.y,
        status: spec_update_zero_and_negative(m.status, value),
        pc: m.pc,
        sp: m.sp,
        mem: m.mem,
    }
}

/// The machine after `update_zero_and_negative_flags(value)`.
pub open spec fn spec_update_flags(m: Machine, value: u8) -> Machine {
    with_status(m, spec_update_zero_and_negative(m.status, value))
}

/// The sign-extension of a byte read as a two's-complement offset,
/// reinterpreted as a 16-bit value.
pub open spec fn sign_extend(offset: u8) -> u16 {
    if offset < 0x80 {
        offset as u16
    } else {
        (offset + 0xFF00) as u16
    }
}

/// The effective operand address for a memory-referencing addressing
/// mode, with the program counter pointing just past the opcode byte.
///
/// For `Immediate` the "address" is the program counter itself: the
/// operand byte sits in the instruction stream. The zero-page indexed
/// modes wrap within 8 bits; the absolute indexed modes and the final
/// add of `Indirect_Y` wrap within 16 bits; the pointer arithmetic of
/// the indirect modes wraps within the zero page.
pub open spec fn spec_operand_address(m: Machine, mode: AddressingMode) -> u16
    recommends
        !(mode is NoneAddressing),
{
    match mode {
        AddressingMode::Immediate => m.pc,
        AddressingMode::ZeroPage => read8(m, m.pc) as u16,
        AddressingMode::Absolute => read16(m, m.pc),
        AddressingMode::ZeroPage_X => read8(m, m.pc).wrapping_add(m.x) as u16,
        AddressingMode::ZeroPage_Y => read8(m, m.pc).wrapping_add(m.y) as u16,
        AddressingMode::Absolute_X => read16(m, m.pc).wrapping_add(m.x as u16),
        AddressingMode::Absolute_Y => read16(m, m.pc).wrapping_add(m.y as u16),
        AddressingMode::Indirect_X => {
            let ptr = read8(m, m.pc).wrapping_add(m.x);
            combine16(read8(m, ptr as u16), read8(m, ptr.wrapping_add(1) as u16))
        },
        AddressingMode::Indirect_Y => {
            let base = read8(m, m.pc);
            let deref_base = combine16(
                read8(m, base as u16),
                read8(m, base.wrapping_add(1) as u16),
            );
            deref_base.wrapping_add(m.y as u16)
        },
        AddressingMode::NoneAddressing => 0,
    }
}

/// The machine after pushing one byte: the byte lands in the stack page
/// at the current stack pointer, which then decrements with 8-bit wrap.
pub open spec fn spec_stack_push(m: Machine, data: u8) -> Machine {
    let written = write8(m, (STACK + m.sp) as u16, data);
    Machine {
        a: written.a,
        x: written.x,
        y: written.y,
        status: written.status,
        pc: written.pc,
        sp: m.sp.wrapping_sub(1),
        mem: written.mem,
    }
}

/// The machine after popping one byte, and the byte: the stack pointer
/// increments with 8-bit wrap first, then the byte is read at it.
pub open spec fn spec_stack_pop(m: Machine) -> (Machine, u8) {
    let sp = m.sp.wrapping_add(1);
    (
        Machine { a: m.a, x: m.x, y: m.y, status: m.status, pc: m.pc, sp, mem: m.mem },
        read8(m, (STACK + sp) as u16),
    )
}

/// A 16-bit push: high byte first, so that the low byte pops first.
pub open spec fn spec_stack_push_u16(m: Machine, data: u16) -> Machine {
    spec_stack_push(spec_stack_push(m, (data / 256) as u8), (data % 256) as u8)
}

/// A 16-bit pop: low byte first, mirroring [`spec_stack_push_u16`].
pub open spec fn spec_stack_pop_u16(m: Machine) -> (Machine, u16) {
    let (m1, lo) = spec_stack_pop(m);
    let (m2, hi) = spec_stack_pop(m1);
    (m2, combine16(lo, hi))
}

/// `LDA`: the operand loads into the accumulator, updating Zero and
/// Negative.
pub open spec fn spec_lda(m: Machine, mode: AddressingMode) -> Machine {
    spec_set_register_a(m, read8(m, spec_operand_address(m, mode)))
}

/// `LDX`: the operand loads into index X, updating Zero and Negative.
pub open spec fn spec_ldx(m: Machine, mode: AddressingMode) -> Machine {
    let value = read8(m, spec_operand_address(m, mode));
    Machine {
        a: m.a,
        x: value,
        y: m.y,
        status: spec_update_zero_and_negative(m.status, value),
        pc: m.pc,
        sp: m.sp,
        mem: m.mem,
    }
}

/// `LDY`: the operand loads into index Y, updating Zero and Negative.
pub open spec fn spec_ldy(m: Machine, mode: AddressingMode) -> Machine {
    let value = read8(m, spec_operand_address(m, mode));
    Machine {
        a: m.a,
        x: m.x,
        y: value,
        status: spec_update_zero_and_negative(m.status, value),
        pc: m.pc,
        sp: m.sp,
        mem: m.mem,
    }
}

/// `STA`: the accumulator stores to the effective address; no flags.
pub open spec fn spec_sta(m: Machine, mode: AddressingMode) -> Machine {
    write8(m, spec_operand_address(m, mode), m.a)
}

/// `STX`: index X stores to the effective address; no flags.
pub open spec fn spec_stx(m: Machine, mode: AddressingMode) -> Machine {
    write8(m, spec_operand_address(m, mode), m.x)
}

/// The add-with-carry core shared by `ADC` and `SBC`: a 9-bit-wide sum
/// of accumulator, operand and carry-in. Carry is set exactly when the
/// sum exceeds `0xFF`; Overflow is set exactly when the operand and the
/// old accumulator agree in sign and the truncated result disagrees;
/// the result then loads into the accumulator as a load would.
pub open spec fn spec_add_to_register_a(m: Machine, data: u8) -> Machine {
    let carry_in: u16 = if m.status & CARRY != 0 {
        1
    } else {
        0
    };
    let sum = m.a + data + carry_in;
    let with_carry = if sum > 0xFF {
        m.status | CARRY
    } else {
        m.status & !CARRY
    };
    let result = (sum % 256) as u8;
    let with_overflow = if (data ^ result) & (result ^ m.a) & 0x80 != 0 {
        with_carry | OVERFLOW
    } else {
        with_carry & !OVERFLOW
    };
    spec_set_register_a(with_status(m, with_overflow), result)
}

/// `ADC`: add the operand to the accumulator with carry.
pub open spec fn spec_adc(m: Machine, mode: AddressingMode) -> Machine {
    spec_add_to_register_a(m, read8(m, spec_operand_address(m, mode)))
}

/// `SBC`: add-with-carry of the operand's bitwise complement, which is
/// its two's-complement negation minus one.
pub open spec fn spec_sbc(m: Machine, mode: AddressingMode) -> Machine {
    spec_add_to_register_a(m, (255 - read8(m, spec_operand_address(m, mode))) as u8)
}

/// `AND`: bitwise AND of the operand into the accumulator, updating
/// Zero and Negative.
pub open spec fn spec_and(m: Machine, mode: AddressingMode) -> Machine {
    spec_set_register_a(m, read8(m, spec_operand_address(m, mode)) & m.a)
}

/// The flag effect of `CMP`-family instructions: Carry is set exactly
/// when the operand is at most the register ("no borrow"), and Zero and
/// Negative come from the wrapping difference.
pub open spec fn spec_compare_status(status: u8, register: u8, data: u8) -> u8 {
    let with_carry = if data <= register {
        status | CARRY
    } else {
        status & !CARRY
    };
    spec_update_zero_and_negative(with_carry, register.wrapping_sub(data))
}

/// `CMP`/`CPX`: compare a register with the operand; only flags change.
pub open spec fn spec_compare(m: Machine, mode: AddressingMode, register: u8) -> Machine {
    with_status(m, spec_compare_status(m.status, register, read8(m, spec_operand_address(m, mode))))
}

/// A conditional branch, with the program counter at the offset byte:
/// when the condition holds, the signed offset is added (with 16-bit
/// wraparound) to the address just past the offset byte; when it does
/// not, nothing changes and the normal length-based advance applies.
pub open spec fn spec_branch(m: Machine, condition: bool) -> Machine {
    if condition {
        with_pc(m, m.pc.wrapping_add(1).wrapping_add(sign_extend(read8(m, m.pc))))
    } else {
        m
    }
}

/// `INX`: index X increments with 8-bit wrap, updating Zero and
/// Negative.
pub open spec fn spec_inx(m: Machine) -> Machine {
    let value = m.x.wrapping_add(1);
    Machine {
        a: m.a,
        x: value,
        y: m.y,
        status: spec_update_zero_and_negative(m.status, value),
        pc: m.pc,
        sp: m.sp,
        mem: m.mem,
    }
}

/// `DEX`: index X decrements with 8-bit wrap, updating Zero and
/// Negative.
pub open spec fn spec_dex(m: Machine) -> Machine {
    let value = m.x.wrapping_sub(1);
    Machine {
        a: m.a,
        x: value,
        y: m.y,
        status: spec_update_zero_and_negative(m.status, value),
        pc: m.pc,
        sp: m.sp,
        mem: m.mem,
    }
}

/// `TAX`: the accumulator transfers to index X, updating Zero and
/// Negative.
pub open spec fn spec_tax(m: Machine) -> Machine {
    Machine {
        a: m.a,
        x: m.a,
        y: m.y,
        status: spec_update_zero_and_negative(m.status, m.a),
        pc: m.pc,
        sp: m.sp,
        mem: m.mem,
    }
}

/// `TXA`: index X transfers to the accumulator, updating Zero and
/// Negative.
pub open spec fn spec_txa(m: Machine) -> Machine {
    spec_set_register_a(m, m.x)
}

/// `INC`: the memory cell increments with 8-bit wrap, updating Zero and
/// Negative from the new value.
pub open spec fn spec_inc(m: Machine, mode: AddressingMode) -> Machine {
    let addr = spec_operand_address(m, mode);
    let value = read8(m, addr).wrapping_add(1);
    spec_update_flags(write8(m, addr, value), value)
}

/// `DEC`: the memory cell decrements with 8-bit wrap, updating Zero and
/// Negative from the new value.
pub open spec fn spec_dec(m: Machine, mode: AddressingMode) -> Machine {
    let addr = spec_operand_address(m, mode);
    let value = read8(m, addr).wrapping_sub(1);
    spec_update_flags(write8(m, addr, value), value)
}

/// `LSR` on the accumulator: Carry takes the shifted-out bit 0, the
/// accumulator halves, and Zero and Negative update from the result.
pub open spec fn spec_lsr_accumulator(m: Machine) -> Machine {
    let with_carry = if m.a & 1 == 1 {
        m.status | CARRY
    } else {
        m.status & !CARRY
    };
    spec_set_register_a(with_status(m, with_carry), m.a / 2)
}

/// `LSR` on memory: Carry takes the shifted-out bit 0, the cell halves,
/// and Zero and Negative update from the result.
pub open spec fn spec_lsr(m: Machine, mode: AddressingMode) -> Machine {
    let addr = spec_operand_address(m, mode);
    let data = read8(m, addr);
    let with_carry = if data & 1 == 1 {
        m.status | CARRY
    } else {
        m.status & !CARRY
    };
    let value = data / 2;
    spec_update_flags(write8(with_status(m, with_carry), addr, value), value)
}

/// `BIT`: Zero from `accumulator AND operand == 0`; Negative and
/// Overflow copied from bits 7 and 6 of the operand itself. The
/// accumulator is untouched.
pub open spec fn spec_bit(m: Machine, mode: AddressingMode) -> Machine {
    let data = read8(m, spec_operand_address(m, mode));
    let with_zero = if m.a & data == 0 {
        m.status | ZERO
    } else {
        m.status & !ZERO
    };
    let with_negative = if data & 0b1000_0000 > 0 {
        with_zero | NEGATIVE
    } else {
        with_zero & !NEGATIVE
    };
    let with_overflow = if data & 0b0100_0000 > 0 {
        with_negative | OVERFLOW
    } else {
        with_negative & !OVERFLOW
    };
    with_status(m, with_overflow)
}

/// `JSR`, with the program counter at the 2-byte target: the address of
/// the last operand byte (return address minus one) pushes as a word,
/// then the program counter takes the target. The target is read after
/// the push, so a push that lands on the operand bytes is seen.
pub open spec fn spec_jsr(m: Machine) -> Machine {
    let pushed = spec_stack_push_u16(m, m.pc.wrapping_add(1));
    with_pc(pushed, read16(pushed, pushed.pc))
}

/// `RTS`: a word pops and the program counter takes it plus one.
pub open spec fn spec_rts(m: Machine) -> Machine {
    let (popped, value) = spec_stack_pop_u16(m);
    with_pc(popped, value.wrapping_add(1))
}

/// `JMP` absolute: the program counter takes the 16-bit target.
pub open spec fn spec_jmp(m: Machine) -> Machine {
    with_pc(m, read16(m, m.pc))
}

/// `BRK`: the Break and Break2 flags set; the dispatcher halts here.
pub open spec fn spec_brk(m: Machine) -> Machine {
    with_status(m, m.status | BREAK | BREAK2)
}

/// The state change of one decoded instruction, with the program
/// counter just past the opcode byte. Meaningful for the opcode bytes
/// the table knows and for their table-assigned `mode`.
pub open spec fn spec_execute(code: u8, mode: AddressingMode, m: Machine) -> Machine {
    match code {
        0xA9 | 0xA5 | 0xB5 | 0xAD | 0xBD | 0xB9 | 0xA1 | 0xB1 => spec_lda(m, mode),
        0xA2 | 0xA6 | 0xB6 | 0xAE | 0xBE => spec_ldx(m, mode),
        0xA0 | 0xA4 | 0xB4 | 0xAC | 0xBC => spec_ldy(m, mode),
        0x85 | 0x95 | 0x8D | 0x9D | 0x99 | 0x81 | 0x91 => spec_sta(m, mode),
        0x86 | 0x96 | 0x8E => spec_stx(m, mode),
        0xE0 | 0xE4 | 0xEC => spec_compare(m, mode, m.x),
        0x20 => spec_jsr(m),
        0x60 => spec_rts(m),
        0x69 | 0x65 | 0x75 | 0x6D | 0x7D | 0x79 | 0x61 | 0x71 => spec_adc(m, mode),
        0xE9 | 0xE5 | 0xF5 | 0xED | 0xFD | 0xF9 | 0xE1 | 0xF1 => spec_sbc(m, mode),
        0x29 | 0x25 | 0x35 | 0x2D | 0x3D | 0x39 | 0x21 | 0x31 => spec_and(m, mode),
        0xD0 => spec_branch(m, m.status & ZERO == 0),
        0xF0 => spec_branch(m, m.status & ZERO != 0),
        0x70 => spec_branch(m, m.status & OVERFLOW != 0),
        0x50 => spec_branch(m, m.status & OVERFLOW == 0),
        0x10 => spec_branch(m, m.status & NEGATIVE == 0),
        0x30 => spec_branch(m, m.status & NEGATIVE != 0),
        0xB0 => spec_branch(m, m.status & CARRY != 0),
        0x90 => spec_branch(m, m.status & CARRY == 0),
        0xCA => spec_dex(m),
        0xAA => spec_tax(m),
        0x8A => spec_txa(m),
        0xE8 => spec_inx(m),
        0xC6 | 0xD6 | 0xCE | 0xDE => spec_dec(m, mode),
        0xD8 => with_status(m, m.status & !DECIMAL),
        0x58 => with_status(m, m.status & !INTERRUPT),
        0xB8 => with_status(m, m.status & !OVERFLOW),
        0x18 => with_status(m, m.status & !CARRY),
        0x38 => with_status(m, m.status | CARRY),
        0x78 => with_status(m, m.status | INTERRUPT),
        0xF8 => with_status(m, m.status | DECIMAL),
        0x24 | 0x2C => spec_bit(m, mode),
        0xC9 | 0xC5 | 0xD5 | 0xCD | 0xDD | 0xD9 | 0xC1 | 0xD1 => spec_compare(m, mode, m.a),
        0x4A => spec_lsr_accumulator(m),
        0x46 | 0x56 | 0x4E | 0x5E => spec_lsr(m, mode),
        0xE6 | 0xF6 | 0xEE | 0xFE => spec_inc(m, mode),
        0x4C => spec_jmp(m),
        _ => m,
    }
}

/// One fetch-decode-execute step. The opcode byte is fetched at the
/// program counter, which advances past it; an unknown byte faults; the
/// break instruction halts with its flag effect; any other instruction
/// executes, and if it left the program counter at its post-fetch value
/// the counter advances over the operand bytes.
pub open spec fn spec_step(m: Machine) -> StepResult {
    let code = read8(m, m.pc);
    let at = m.pc;
    let fetched = with_pc(m, m.pc.wrapping_add(1));
    match spec_opcode(code) {
        Option::None => StepResult::Fault(fetched, code, at),
        Option::Some(op) => {
            if code == 0x00 {
                StepResult::Halt(spec_brk(fetched))
            } else {
                let executed = spec_execute(code, op.mode, fetched);
                if executed.pc == fetched.pc {
                    StepResult::Next(
                        with_pc(executed, executed.pc.wrapping_add((op.len - 1) as u16)),
                    )
                } else {
                    StepResult::Next(executed)
                }
            }
        },
    }
}

/// The machine after `n` steps: `Next` while the machine is still
/// running, or the halt or fault in which the run ended within `n`
/// steps.
pub open spec fn steps(m: Machine, n: nat) -> StepResult
    decreases n,
{
    if n == 0 {
        StepResult::Next(m)
    } else {
        match spec_step(m) {
            StepResult::Next(next) => steps(next, (n - 1) as nat),
            r => r,
        }
    }
}

/// Extending a run by one step: if `n` steps reach the running machine
/// `m`, then `n + 1` steps from the start give exactly `spec_step(m)`.
pub proof fn lemma_steps_snoc(m0: Machine, n: nat, m: Machine)
    requires
        steps(m0, n) == StepResult::Next(m),
    ensures
        steps(m0, n + 1) == spec_step(m),
    decreases n,
{
    if n == 0 {
        assert(m0 == m);
        assert(steps(m0, 1) == match spec_step(m0) {
            StepResult::Next(next) => steps(next, 0),
            r => r,
        });
    } else {
        match spec_step(m0) {
            StepResult::Next(next) => {
                lemma_steps_snoc(next, (n - 1) as nat, m);
            },
            _ => {},
        }
    }
}

/// The processor state after a reset: registers and flags zeroed, the
/// stack pointer at its reset value, the program counter loaded from
/// the reset vector, memory untouched.
pub open spec fn spec_reset(m: Machine) -> Machine {
    Machine {
        a: 0,
        x: 0,
        y: 0,
        status: 0,
        pc: read16(m, RESET_VECTOR),
        sp: STACK_RESET,
        mem: m.mem,
    }
}

/// The memory after a load: the program's bytes from the load origin
/// up, then the load origin written into the reset vector as a
/// little-endian word, everything else untouched.
pub open spec fn spec_load_mem(mem: Seq<u8>, program: Seq<u8>) -> Seq<u8> {
    let with_program = Seq::new(
        mem.len(),
        |i: int|
            if LOAD_ORIGIN <= i < LOAD_ORIGIN + program.len() {
                program[i - LOAD_ORIGIN]
            } else {
                mem[i]
            },
    );
    with_program.update(RESET_VECTOR as int, (LOAD_ORIGIN % 256) as u8).update(
        RESET_VECTOR + 1,
        (LOAD_ORIGIN / 256) as u8,
    )
}

/// The machine after a load: only memory changes, as
/// [`spec_load_mem`] says.
pub open spec fn spec_load(m: Machine, program: Seq<u8>) -> Machine {
    Machine {
        a: m.a,
        x: m.x,
        y: m.y,
        status: m.status,
        pc: m.pc,
        sp: m.sp,
        mem: spec_load_mem(m.mem, program),
    }
}

} // verus!
