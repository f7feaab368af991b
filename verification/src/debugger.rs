//! The debug-print trap: a guest program passes the address of a
//! zero-terminated buffer and the host emits it as text.
//!
//! The handler reads the buffer out of guest memory, charges for the bytes
//! it read and decodes them. It hands the text back; writing it to the
//! diagnostic stream is left to the host, after the charge has been made.

use crate::cost_model::transfer_cost;
use crate::cost_model::transferred_byte_cycles;
use crate::machine::add_cycles;
use crate::machine::charge_fault;
use crate::machine::load_byte;
use crate::machine::load_fault;
use crate::machine::machine_cycles;
use crate::machine::machine_max_cycles;
use crate::machine::machine_memory;
use crate::machine::machine_registers;
use crate::machine::read_register;
use crate::machine::same_guest_state;
use crate::machine::GUEST_MEMORY_SIZE;
use ckb_vm::DefaultCoreMachine;
use ckb_vm::SparseMemory;
use vstd::prelude::*;
use vstd::utf8::decode_utf8;
use vstd::utf8::valid_utf8;

verus! {

/// The syscall number that a guest puts in the syscall-number register to ask
/// for a debug print.
pub const DEBUG_PRINT_SYSCALL_NUMBER: u64 = 2177;

/// Index of the register that carries the syscall number (`a7`).
pub const SYSCALL_NUMBER_REGISTER: usize = 17;

/// Index of the register that carries the buffer's address (`a0`).
pub const BUFFER_ADDRESS_REGISTER: usize = 10;

/// `std::string::FromUtf8Error`, what `String::from_utf8` fails with.
/// Opaque to the verifier.
#[verifier::external_type_specification]
#[verifier::external_body]
pub struct ExFromUtf8Error(std::string::FromUtf8Error);

/// What became of a trap that the handler was offered.
#[derive(Debug)]
pub enum Trap {
    /// The trap is some other syscall: nothing was read, charged or emitted.
    NotHandled,
    /// The trap was a debug print and is serviced once the host has written
    /// this text, as it is, to its diagnostic stream.
    Handled(String),
}

/// Why a debug print failed. Each failure ends the guest's run.
#[derive(Debug)]
pub enum SyscallError {
    /// A byte of the buffer could not be read: the machine's own error.
    Memory(ckb_vm::Error),
    /// The charge did not fit in the cycle budget: the machine's own error.
    Cycles(ckb_vm::Error),
    /// The buffer does not hold valid UTF-8.
    Decode,
}

/// True when the buffer that starts at `start` holds `length` bytes before
/// its terminating zero, all of them in guest memory.
pub open spec fn buffer_ends_after(memory: Seq<u8>, start: int, length: int) -> bool {
    &&& 0 <= start
    &&& 0 <= length
    &&& start + length < memory.len()
    &&& memory[start + length] == 0
    &&& forall|i: int| start <= i < start + length ==> memory[i] != 0
}

/// True when no zero byte lies at or after `start` in guest memory, so that
/// a scan from `start` runs into the end of memory.
pub open spec fn buffer_unterminated(memory: Seq<u8>, start: int) -> bool {
    forall|i: int| 0 <= start <= i < memory.len() ==> memory[i] != 0
}

/// The address at which a scan from `start` that meets no zero byte fails:
/// `start` itself where that is outside memory, else the end of memory.
pub open spec fn first_unreadable(memory: Seq<u8>, start: u64) -> u64 {
    if start >= memory.len() {
        start
    } else {
        memory.len() as u64
    }
}

/// The bytes of the buffer, the terminating zero left out.
pub open spec fn buffer_bytes(memory: Seq<u8>, start: int, length: int) -> Seq<u8> {
    memory.subrange(start, start + length)
}

/// The number of bytes that the buffer at `start` holds before its
/// terminating zero, where it has one.
pub open spec fn buffer_length(memory: Seq<u8>, start: int) -> int {
    choose|length: int| buffer_ends_after(memory, start, length)
}

/// What decoding the collected bytes must give: the text they encode, or a
/// decode error where they are not valid UTF-8.
pub open spec fn decoded_as(bytes: Seq<u8>, outcome: Result<Trap, SyscallError>) -> bool {
    if valid_utf8(bytes) {
        outcome matches Ok(Trap::Handled(text)) && text@ == decode_utf8(bytes)
    } else {
        outcome matches Err(SyscallError::Decode)
    }
}

/// What a debug print whose buffer holds `bytes` must do to the cycle
/// counter and return: the charge for the bytes is made first and fails the
/// call if the budget does not hold it; only then are the bytes decoded.
pub open spec fn printed_as(
    bytes: Seq<u8>,
    cycles: u64,
    max_cycles: u64,
    cycles_after: u64,
    outcome: Result<Trap, SyscallError>,
) -> bool {
    let cost = transfer_cost(bytes.len() as u64);
    if cycles + cost > max_cycles {
        cycles_after == cycles && (outcome matches Err(SyscallError::Cycles(exhausted))
            && exhausted == charge_fault(cycles, cost))
    } else {
        cycles_after == cycles + cost && decoded_as(bytes, outcome)
    }
}

/// What servicing a trap must do to the cycle counter and return, given the
/// syscall number and the first argument that the guest passed.
pub open spec fn serviced_as(
    number: u64,
    start: u64,
    memory: Seq<u8>,
    cycles: u64,
    max_cycles: u64,
    cycles_after: u64,
    outcome: Result<Trap, SyscallError>,
) -> bool {
    if number != DEBUG_PRINT_SYSCALL_NUMBER {
        cycles_after == cycles && (outcome matches Ok(Trap::NotHandled))
    } else if buffer_unterminated(memory, start as int) {
        cycles_after == cycles && (outcome matches Err(SyscallError::Memory(fault)) && fault
            == load_fault(first_unreadable(memory, start)))
    } else {
        printed_as(
            buffer_bytes(memory, start as int, buffer_length(memory, start as int)),
            cycles,
            max_cycles,
            cycles_after,
            outcome,
        )
    }
}

/// Calls `String::from_utf8`, which by its documentation succeeds exactly on
/// valid UTF-8 and then holds the very bytes it was given. Not verified.
#[verifier::external_body]
fn string_from_utf8(bytes: Vec<u8>) -> (decoded: Result<String, std::string::FromUtf8Error>)
    ensures
        decoded is Ok <==> valid_utf8(bytes@),
        decoded is Ok ==> decoded.unwrap()@ == decode_utf8(bytes@),
{
    String::from_utf8(bytes)
}

/// Decodes the bytes collected from a guest buffer.
pub fn decode_buffer(bytes: Vec<u8>) -> (outcome: Result<Trap, SyscallError>)
    ensures
        decoded_as(bytes@, outcome),
{
    match string_from_utf8(bytes) {
        Ok(text) => Ok(Trap::Handled(text)),
        Err(_) => Err(SyscallError::Decode),
    }
}

/// Collects the bytes from `start` up to the first zero byte.
///
/// The scan reads one byte at a time and stops at the first zero or at
/// the first byte that cannot be read, whichever comes first; it cannot
/// run forever, because guest memory ends.
pub fn scan_buffer(
    machine: &mut DefaultCoreMachine<u64, SparseMemory<u64>>,
    start: u64,
) -> (scanned: Result<Vec<u8>, ckb_vm::Error>)
    ensures
        same_guest_state(*old(machine), *final(machine)),
        machine_cycles(*final(machine)) == machine_cycles(*old(machine)),
        scanned is Err <==> buffer_unterminated(machine_memory(*old(machine)), start as int),
        scanned matches Err(fault) ==> fault == load_fault(
            first_unreadable(machine_memory(*old(machine)), start),
        ),
        scanned matches Ok(bytes) ==> buffer_ends_after(
            machine_memory(*old(machine)),
            start as int,
            bytes@.len() as int,
        ) && bytes@ == buffer_bytes(
            machine_memory(*old(machine)),
            start as int,
            bytes@.len() as int,
        ),
{
    let ghost memory = machine_memory(*machine);
    let ghost before = *machine;
    let mut address: u64 = start;
    let mut buffer: Vec<u8> = Vec::new();
    loop
        invariant
            before == *old(machine),
            same_guest_state(before, *machine),
            machine_cycles(*machine) == machine_cycles(before),
            memory == machine_memory(before),
            address == start + buffer@.len(),
            buffer@.len() > 0 ==> address <= GUEST_MEMORY_SIZE,
            forall|i: int| start <= i < address && i < memory.len() ==> memory[i] != 0,
            forall|k: int|
                0 <= k < buffer@.len() && start + k < memory.len() ==> buffer@[k]
                    == memory[start + k],
        decreases GUEST_MEMORY_SIZE - address,
    {
        match load_byte(machine, address) {
            Err(fault) => {
                return Err(fault);
            },
            Ok(byte) => {
                if byte == 0 {
                    assert(memory[address as int] == 0);
                    assert(buffer@ =~= buffer_bytes(memory, start as int, buffer@.len() as int));
                    return Ok(buffer);
                }
                buffer.push(byte);
                address += 1;
            },
        }
    }
}

/// The handler of the debug-print syscall. It keeps no state between traps.
pub struct Debugger {}

impl Debugger {
    pub fn new() -> (debugger: Debugger) {
        Debugger {  }
    }

    /// Prepares the handler for a run. There is nothing to prepare: the
    /// machine is left exactly as it was.
    pub fn initialize(
        &mut self,
        machine: &mut DefaultCoreMachine<u64, SparseMemory<u64>>,
    ) -> (ready: Result<(), SyscallError>)
        ensures
            ready is Ok,
            *final(machine) == *old(machine),
    {
        Ok(())
    }

    /// Services one trap.
    ///
    /// A trap whose syscall number is not `DEBUG_PRINT_SYSCALL_NUMBER` is
    /// declined and nothing is touched. Otherwise the buffer at the address
    /// in the first argument register is scanned, the bytes read are charged
    /// for, and the text they encode is returned for the host to emit. The
    /// guest's registers and memory are never changed.
    pub fn ecall(
        &mut self,
        machine: &mut DefaultCoreMachine<u64, SparseMemory<u64>>,
    ) -> (outcome: Result<Trap, SyscallError>)
        ensures
            same_guest_state(*old(machine), *final(machine)),
            serviced_as(
                machine_registers(*old(machine))[SYSCALL_NUMBER_REGISTER as int],
                machine_registers(*old(machine))[BUFFER_ADDRESS_REGISTER as int],
                machine_memory(*old(machine)),
                machine_cycles(*old(machine)),
                machine_max_cycles(*old(machine)),
                machine_cycles(*final(machine)),
                outcome,
            ),
    {
        let number = read_register(machine, SYSCALL_NUMBER_REGISTER);
        if number != DEBUG_PRINT_SYSCALL_NUMBER {
            return Ok(Trap::NotHandled);
        }
        let start = read_register(machine, BUFFER_ADDRESS_REGISTER);
        let ghost memory = machine_memory(*machine);
        let buffer = match scan_buffer(machine, start) {
            Ok(buffer) => buffer,
            Err(fault) => {
                return Err(SyscallError::Memory(fault));
            },
        };
        proof {
            buffer_end_unique(memory, start as int, buffer@.len() as int);
        }
        let length: u64 = buffer.len() as u64;
        match add_cycles(machine, transferred_byte_cycles(length)) {
            Ok(()) => {},
            Err(exhausted) => {
                return Err(SyscallError::Cycles(exhausted));
            },
        }
        decode_buffer(buffer)
    }
}

/// True when two outcomes are the same answer to a trap: the same kind of
/// result, with the same text or the same error of the machine.
pub open spec fn same_answer(
    first: Result<Trap, SyscallError>,
    second: Result<Trap, SyscallError>,
) -> bool {
    match (first, second) {
        (Ok(Trap::NotHandled), Ok(Trap::NotHandled)) => true,
        (Ok(Trap::Handled(one)), Ok(Trap::Handled(other))) => one@ == other@,
        (Err(SyscallError::Memory(one)), Err(SyscallError::Memory(other))) => one == other,
        (Err(SyscallError::Cycles(one)), Err(SyscallError::Cycles(other))) => one == other,
        (Err(SyscallError::Decode), Err(SyscallError::Decode)) => true,
        _ => false,
    }
}

/// A trap has one answer. Two runs that start from the same syscall number,
/// address, memory, counter and budget charge the same cycles and end in
/// the same result.
pub proof fn service_deterministic(
    number: u64,
    start: u64,
    memory: Seq<u8>,
    cycles: u64,
    max_cycles: u64,
    first_cycles: u64,
    first: Result<Trap, SyscallError>,
    second_cycles: u64,
    second: Result<Trap, SyscallError>,
)
    requires
        serviced_as(number, start, memory, cycles, max_cycles, first_cycles, first),
        serviced_as(number, start, memory, cycles, max_cycles, second_cycles, second),
    ensures
        first_cycles == second_cycles,
        same_answer(first, second),
{
}

/// A trap with any other syscall number is declined, and nothing is charged.
pub proof fn other_syscall_declined(
    number: u64,
    start: u64,
    memory: Seq<u8>,
    cycles: u64,
    max_cycles: u64,
    cycles_after: u64,
    outcome: Result<Trap, SyscallError>,
)
    requires
        number != DEBUG_PRINT_SYSCALL_NUMBER,
        serviced_as(number, start, memory, cycles, max_cycles, cycles_after, outcome),
    ensures
        outcome matches Ok(Trap::NotHandled),
        cycles_after == cycles,
{
}

/// A debug print is charged for the bytes before the terminating zero, or
/// not at all. Where the budget holds the transfer cost of the buffer's
/// length, the counter grows by exactly that cost, whether or not the bytes
/// then decode; where it does not, the counter keeps its value and the
/// print fails on the budget.
pub proof fn print_charges_transfer_cost(
    start: u64,
    memory: Seq<u8>,
    length: u64,
    cycles: u64,
    max_cycles: u64,
    cycles_after: u64,
    outcome: Result<Trap, SyscallError>,
)
    requires
        buffer_ends_after(memory, start as int, length as int),
        serviced_as(
            DEBUG_PRINT_SYSCALL_NUMBER,
            start,
            memory,
            cycles,
            max_cycles,
            cycles_after,
            outcome,
        ),
    ensures
        cycles + transfer_cost(length) <= max_cycles ==> cycles_after == cycles + transfer_cost(
            length,
        ) && decoded_as(buffer_bytes(memory, start as int, length as int), outcome),
        cycles + transfer_cost(length) > max_cycles ==> cycles_after == cycles && (
        outcome matches Err(SyscallError::Cycles(exhausted)) && exhausted == charge_fault(
            cycles,
            transfer_cost(length),
        )),
{
    buffer_end_unique(memory, start as int, length as int);
    assert(buffer_bytes(memory, start as int, length as int).len() == length);
}

/// A buffer that starts with its terminating zero prints the empty text
/// and costs nothing, whatever the budget.
pub proof fn empty_buffer_is_free(
    start: u64,
    memory: Seq<u8>,
    cycles: u64,
    max_cycles: u64,
    cycles_after: u64,
    outcome: Result<Trap, SyscallError>,
)
    requires
        start < memory.len(),
        memory[start as int] == 0,
        cycles <= max_cycles,
        serviced_as(
            DEBUG_PRINT_SYSCALL_NUMBER,
            start,
            memory,
            cycles,
            max_cycles,
            cycles_after,
            outcome,
        ),
    ensures
        cycles_after == cycles,
        outcome matches Ok(Trap::Handled(text)) && text@.len() == 0,
{
    assert(buffer_ends_after(memory, start as int, 0));
    buffer_end_unique(memory, start as int, 0);
    let bytes = buffer_bytes(memory, start as int, 0);
    assert(bytes.len() == 0);
    assert(valid_utf8(bytes));
    assert(decode_utf8(bytes).len() == 0);
}

/// A buffer has one end: the first zero byte at or after its start. So a
/// terminated buffer has exactly one length, and is not unterminated.
pub proof fn buffer_end_unique(memory: Seq<u8>, start: int, length: int)
    requires
        buffer_ends_after(memory, start, length),
    ensures
        !buffer_unterminated(memory, start),
        forall|other: int| #[trigger] buffer_ends_after(memory, start, other) ==> other == length,
{
    assert(memory[start + length] == 0);
    assert forall|other: int| #[trigger] buffer_ends_after(memory, start, other) implies other
        == length by {
        if other < length {
            assert(memory[start + other] == 0);
        } else if other > length {
            assert(memory[start + length] == 0);
        }
    }
}

/// Every start address is of exactly one kind: its buffer ends at a zero
/// byte in memory, or the scan from it runs into the end of memory.
pub proof fn buffer_ends_or_not(memory: Seq<u8>, start: int)
    requires
        0 <= start,
    ensures
        buffer_unterminated(memory, start) != (exists|length: int|
            buffer_ends_after(memory, start, length)),
{
    if buffer_unterminated(memory, start) {
        assert forall|length: int| !buffer_ends_after(memory, start, length) by {
            if buffer_ends_after(memory, start, length) {
                assert(memory[start + length] != 0);
            }
        }
    } else {
        first_zero_from(memory, start, memory.len() as int);
    }
}

/// If a zero byte lies in `start..end`, the buffer at `start` ends before `end`.
proof fn first_zero_from(memory: Seq<u8>, start: int, end: int)
    requires
        0 <= start,
        end <= memory.len(),
        exists|i: int| start <= i < end && memory[i] == 0,
    ensures
        exists|length: int| buffer_ends_after(memory, start, length),
    decreases end - start,
{
    if memory[start] == 0 {
        assert(buffer_ends_after(memory, start, 0));
    } else {
        let zero = choose|i: int| start <= i < end && memory[i] == 0;
        assert(start + 1 <= zero < end && memory[zero] == 0);
        let next = start + 1;
        first_zero_from(memory, next, end);
        let rest = choose|length: int| buffer_ends_after(memory, next, length);
        assert(buffer_ends_after(memory, start, rest + 1));
    }
}

} // verus!
