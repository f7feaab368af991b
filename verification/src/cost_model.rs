//! The cycle cost of instructions and of bytes moved between guest and host.
//!
//! Costs are plain integers computed from the instruction word alone, so the
//! same program is charged the same number of cycles on every host.

use vstd::prelude::*;

verus! {

/// Cycles charged for an instruction that falls in no other class.
pub const BASE_CYCLES: u64 = 1;

/// Cycles charged for a load from or a store to guest memory.
pub const MEMORY_CYCLES: u64 = 2;

/// Cycles charged for a branch or a jump.
pub const JUMP_CYCLES: u64 = 3;

/// Cycles charged for an instruction of the bit-manipulation extension.
pub const BIT_MANIPULATION_CYCLES: u64 = 4;

/// Cycles charged for a multiplication, carry-less or wide ones included.
pub const MULTIPLY_CYCLES: u64 = 5;

/// Cycles charged for a division or a remainder.
pub const DIVIDE_CYCLES: u64 = 32;

/// Cycles charged for a trap into the host.
pub const TRAP_CYCLES: u64 = 500;

/// Number of transferred bytes that one cycle pays for.
pub const BYTES_PER_CYCLE: u64 = 4;

// The opcodes that the cost table names, numbered as the machine's decoder
// numbers them. Every other opcode is charged `BASE_CYCLES`.
pub const OP_BEQ: u16 = 0x08;
pub const OP_BGE: u16 = 0x09;
pub const OP_BGEU: u16 = 0x0A;
pub const OP_BLT: u16 = 0x0B;
pub const OP_BLTU: u16 = 0x0C;
pub const OP_BNE: u16 = 0x0D;
pub const OP_DIV: u16 = 0x0E;
pub const OP_DIVU: u16 = 0x0F;
pub const OP_DIVUW: u16 = 0x10;
pub const OP_DIVW: u16 = 0x11;
pub const OP_EBREAK: u16 = 0x12;
pub const OP_ECALL: u16 = 0x13;
pub const OP_JAL: u16 = 0x16;
pub const OP_JALR: u16 = 0x17;
pub const OP_LB: u16 = 0x18;
pub const OP_LBU: u16 = 0x19;
pub const OP_LD: u16 = 0x1A;
pub const OP_LH: u16 = 0x1B;
pub const OP_LHU: u16 = 0x1C;
pub const OP_LW: u16 = 0x1E;
pub const OP_LWU: u16 = 0x1F;
pub const OP_MUL: u16 = 0x20;
pub const OP_MULH: u16 = 0x21;
pub const OP_MULHSU: u16 = 0x22;
pub const OP_MULHU: u16 = 0x23;
pub const OP_MULW: u16 = 0x24;
pub const OP_REM: u16 = 0x27;
pub const OP_REMU: u16 = 0x28;
pub const OP_REMUW: u16 = 0x29;
pub const OP_REMW: u16 = 0x2A;
pub const OP_SB: u16 = 0x2B;
pub const OP_SD: u16 = 0x2C;
pub const OP_SH: u16 = 0x2D;
pub const OP_SW: u16 = 0x40;
/// First opcode of the bit-manipulation extension.
pub const OP_ADDUW: u16 = 0x43;
pub const OP_CLMUL: u16 = 0x4D;
pub const OP_CLMULH: u16 = 0x4E;
pub const OP_CLMULR: u16 = 0x4F;
/// Last opcode of the bit-manipulation extension.
pub const OP_ZEXTH: u16 = 0x6D;
pub const OP_WIDE_MUL: u16 = 0x6E;
pub const OP_WIDE_MULU: u16 = 0x6F;
pub const OP_WIDE_MULSU: u16 = 0x70;
pub const OP_WIDE_DIV: u16 = 0x71;
pub const OP_WIDE_DIVU: u16 = 0x72;
pub const OP_FAR_JUMP_REL: u16 = 0x73;
pub const OP_FAR_JUMP_ABS: u16 = 0x74;

/// The opcode that a decoded instruction word carries: its lowest byte, with
/// the third byte above it as the second-level opcode.
pub open spec fn instruction_opcode(instruction: u64) -> u16 {
    (((instruction >> 8) & 0xff00) | (instruction & 0x00ff)) as u16
}

pub open spec fn is_jump(opcode: u16) -> bool {
    opcode == OP_JAL || opcode == OP_JALR || opcode == OP_BEQ || opcode == OP_BGE || opcode
        == OP_BGEU || opcode == OP_BLT || opcode == OP_BLTU || opcode == OP_BNE || opcode
        == OP_FAR_JUMP_REL || opcode == OP_FAR_JUMP_ABS
}

pub open spec fn is_memory_access(opcode: u16) -> bool {
    opcode == OP_LB || opcode == OP_LBU || opcode == OP_LD || opcode == OP_LH || opcode == OP_LHU
        || opcode == OP_LW || opcode == OP_LWU || opcode == OP_SB || opcode == OP_SD || opcode
        == OP_SH || opcode == OP_SW
}

pub open spec fn is_multiply(opcode: u16) -> bool {
    opcode == OP_MUL || opcode == OP_MULH || opcode == OP_MULHSU || opcode == OP_MULHU || opcode
        == OP_MULW || opcode == OP_CLMUL || opcode == OP_CLMULH || opcode == OP_CLMULR || opcode
        == OP_WIDE_MUL || opcode == OP_WIDE_MULU || opcode == OP_WIDE_MULSU
}

pub open spec fn is_divide(opcode: u16) -> bool {
    opcode == OP_DIV || opcode == OP_DIVU || opcode == OP_DIVUW || opcode == OP_DIVW || opcode
        == OP_REM || opcode == OP_REMU || opcode == OP_REMUW || opcode == OP_REMW || opcode
        == OP_WIDE_DIV || opcode == OP_WIDE_DIVU
}

pub open spec fn is_trap(opcode: u16) -> bool {
    opcode == OP_EBREAK || opcode == OP_ECALL
}

/// True of every opcode of the bit-manipulation extension, its carry-less
/// multiplications included.
pub open spec fn is_bit_manipulation(opcode: u16) -> bool {
    OP_ADDUW <= opcode <= OP_ZEXTH
}

/// True of the opcodes beyond the base instruction set's arithmetic, logic,
/// memory access and control flow: multiplications, divisions and the
/// bit-manipulation extension.
pub open spec fn is_extension(opcode: u16) -> bool {
    is_multiply(opcode) || is_divide(opcode) || is_bit_manipulation(opcode)
}

/// The cost table: the cycles charged for an instruction with this opcode.
pub open spec fn opcode_cost(opcode: u16) -> u64 {
    if is_trap(opcode) {
        TRAP_CYCLES
    } else if is_divide(opcode) {
        DIVIDE_CYCLES
    } else if is_multiply(opcode) {
        MULTIPLY_CYCLES
    } else if is_jump(opcode) {
        JUMP_CYCLES
    } else if is_memory_access(opcode) {
        MEMORY_CYCLES
    } else if is_bit_manipulation(opcode) {
        BIT_MANIPULATION_CYCLES
    } else {
        BASE_CYCLES
    }
}

/// The cycles charged for retiring one instruction.
pub open spec fn instruction_cost(instruction: u64) -> u64 {
    opcode_cost(instruction_opcode(instruction))
}

/// The cycles charged for moving `bytes` bytes: one per started group of
/// `BYTES_PER_CYCLE` bytes.
pub open spec fn transfer_cost(bytes: u64) -> u64 {
    if bytes == 0 {
        0
    } else {
        ((bytes - 1) / (BYTES_PER_CYCLE as int) + 1) as u64
    }
}

/// Calls `ckb_vm::instructions::extract_opcode`, which keeps the lowest byte
/// of the instruction word and puts the word's third byte above it. Not
/// verified: the contract restates that one expression.
#[verifier::external_body]
fn extract_opcode(instruction: u64) -> (opcode: u16)
    ensures
        opcode == instruction_opcode(instruction),
{
    ckb_vm::instructions::extract_opcode(instruction)
}

/// Looks an opcode up in the cost table.
pub fn opcode_cycles(opcode: u16) -> (cycles: u64)
    ensures
        cycles == opcode_cost(opcode),
{
    match opcode {
        OP_EBREAK | OP_ECALL => TRAP_CYCLES,
        OP_DIV | OP_DIVU | OP_DIVUW | OP_DIVW | OP_REM | OP_REMU | OP_REMUW | OP_REMW
        | OP_WIDE_DIV | OP_WIDE_DIVU => DIVIDE_CYCLES,
        OP_MUL | OP_MULH | OP_MULHSU | OP_MULHU | OP_MULW | OP_CLMUL | OP_CLMULH | OP_CLMULR
        | OP_WIDE_MUL | OP_WIDE_MULU | OP_WIDE_MULSU => MULTIPLY_CYCLES,
        OP_JAL | OP_JALR | OP_BEQ | OP_BGE | OP_BGEU | OP_BLT | OP_BLTU | OP_BNE
        | OP_FAR_JUMP_REL | OP_FAR_JUMP_ABS => JUMP_CYCLES,
        OP_LB | OP_LBU | OP_LD | OP_LH | OP_LHU | OP_LW | OP_LWU | OP_SB | OP_SD | OP_SH
        | OP_SW => MEMORY_CYCLES,
        _ => if OP_ADDUW <= opcode && opcode <= OP_ZEXTH {
            BIT_MANIPULATION_CYCLES
        } else {
            BASE_CYCLES
        },
    }
}

/// The cycles to charge for retiring `instruction`. Every instruction word
/// has a cost, and the cost depends on nothing but the word.
pub fn instruction_cycles(instruction: u64) -> (cycles: u64)
    ensures
        cycles == instruction_cost(instruction),
        BASE_CYCLES <= cycles <= TRAP_CYCLES,
{
    opcode_cycles(extract_opcode(instruction))
}

/// The cycles to charge for moving `bytes` bytes between guest and host.
pub fn transferred_byte_cycles(bytes: u64) -> (cycles: u64)
    ensures
        cycles == transfer_cost(bytes),
{
    if bytes == 0 {
        0
    } else {
        (bytes - 1) / BYTES_PER_CYCLE + 1
    }
}

/// Two instruction words with the same bits are charged the same.
pub proof fn instruction_cost_deterministic(first: u64, second: u64)
    requires
        first == second,
    ensures
        instruction_cost(first) == instruction_cost(second),
{
}

/// An instruction's cost is read from its opcode alone: words that differ
/// only in registers, flags or immediates cost the same.
pub proof fn instruction_cost_by_opcode(first: u64, second: u64)
    requires
        instruction_opcode(first) == instruction_opcode(second),
    ensures
        instruction_cost(first) == instruction_cost(second),
{
}

/// Multiplications, divisions and the bit-manipulation extension cost more
/// than any arithmetic, logic, memory or control-flow instruction of the
/// base set. Only a trap into the host costs more still.
pub proof fn extension_costs_more(extension: u16, other: u16)
    requires
        is_extension(extension),
        !is_extension(other),
        !is_trap(other),
    ensures
        opcode_cost(extension) > opcode_cost(other),
        opcode_cost(extension) < TRAP_CYCLES,
{
}

/// Every opcode has a cost, between the base cost and that of a trap.
pub proof fn opcode_cost_bounds(opcode: u16)
    ensures
        BASE_CYCLES <= opcode_cost(opcode) <= TRAP_CYCLES,
{
}

/// Moving nothing is free.
pub proof fn transfer_cost_zero()
    ensures
        transfer_cost(0) == 0,
{
}

/// Moving more bytes never costs less.
pub proof fn transfer_cost_monotonic(fewer: u64, more: u64)
    requires
        fewer <= more,
    ensures
        transfer_cost(fewer) <= transfer_cost(more),
{
}

/// The cost is the byte count divided by `BYTES_PER_CYCLE`, rounded up.
pub proof fn transfer_cost_rounds_up(bytes: u64)
    ensures
        transfer_cost(bytes) * BYTES_PER_CYCLE >= bytes,
        transfer_cost(bytes) * BYTES_PER_CYCLE < bytes + BYTES_PER_CYCLE,
{
}

} // verus!
