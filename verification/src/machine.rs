//! What the verified code relies on from the virtual machine.
//!
//! The machine is `ckb_vm`'s interpreter core over sparse memory. Verus does
//! not look inside it. What a machine holds, and the errors that its calls
//! fail with, are named by the functions without a body below; each call
//! into it is a small function whose contract is taken from the source of
//! `ckb_vm` and believed, not proved.

use ckb_vm::CoreMachine;
use ckb_vm::DefaultCoreMachine;
use ckb_vm::Memory;
use ckb_vm::Register;
use ckb_vm::SparseMemory;
use ckb_vm::SupportMachine;
use vstd::prelude::*;

verus! {

/// `ckb_vm::DefaultCoreMachine`, the interpreter's machine core: registers,
/// memory, cycle counter and budget. Opaque to the verifier.
#[verifier::external_type_specification]
#[verifier::external_body]
#[verifier::reject_recursive_types(R)]
#[verifier::reject_recursive_types(M)]
pub struct ExDefaultCoreMachine<R, M>(ckb_vm::DefaultCoreMachine<R, M>);

/// `ckb_vm::SparseMemory`, guest memory that allocates a page when it is
/// first touched. Opaque to the verifier.
#[verifier::external_type_specification]
#[verifier::external_body]
#[verifier::reject_recursive_types(R)]
pub struct ExSparseMemory<R>(ckb_vm::SparseMemory<R>);

/// `ckb_vm::Error`, the machine's error. Opaque to the verifier: it is only
/// carried from the call that failed to the caller.
#[verifier::external_type_specification]
#[verifier::external_body]
pub struct ExError(ckb_vm::Error);

/// Number of general-purpose registers of the machine.
pub const REGISTER_COUNT: usize = 32;

/// Size of guest memory in bytes: addresses below it can be read, no other.
pub const GUEST_MEMORY_SIZE: u64 = 0x40_0000;

/// The general-purpose registers of the machine, by index.
pub uninterp spec fn machine_registers(machine: DefaultCoreMachine<u64, SparseMemory<u64>>) -> Seq<
    u64,
>;

/// The bytes of guest memory, by address. A page that was never written
/// reads as zeros.
pub uninterp spec fn machine_memory(machine: DefaultCoreMachine<u64, SparseMemory<u64>>) -> Seq<
    u8,
>;

/// The cycles charged to the machine so far.
pub uninterp spec fn machine_cycles(machine: DefaultCoreMachine<u64, SparseMemory<u64>>) -> u64;

/// The cycle budget that the machine was made with.
pub uninterp spec fn machine_max_cycles(
    machine: DefaultCoreMachine<u64, SparseMemory<u64>>,
) -> u64;

/// The error with which a load from `address` fails, where it fails.
pub uninterp spec fn load_fault(address: u64) -> ckb_vm::Error;

/// The error with which charging `charge` cycles to a counter that holds
/// `cycles` fails, where it fails.
pub uninterp spec fn charge_fault(cycles: u64, charge: u64) -> ckb_vm::Error;

/// True when two machine states show the guest the same registers and
/// memory and have the same budget.
pub open spec fn same_guest_state(
    before: DefaultCoreMachine<u64, SparseMemory<u64>>,
    after: DefaultCoreMachine<u64, SparseMemory<u64>>,
) -> bool {
    &&& machine_registers(after) == machine_registers(before)
    &&& machine_memory(after) == machine_memory(before)
    &&& machine_max_cycles(after) == machine_max_cycles(before)
}

/// Reads one register through `CoreMachine::registers`, which hands out the
/// machine's array of thirty-two registers. Not verified.
#[verifier::external_body]
pub(crate) fn read_register(
    machine: &DefaultCoreMachine<u64, SparseMemory<u64>>,
    index: usize,
) -> (value: u64)
    requires
        index < REGISTER_COUNT,
    ensures
        value == machine_registers(*machine)[index as int],
{
    machine.registers()[index]
}

/// Loads one byte through `Memory::load8` of `SparseMemory`. Not verified.
/// By its source the load fails exactly when the address lies at or beyond
/// the end of guest memory, with an error that the state of the machine has
/// no part in, and otherwise yields the byte stored there; it may allocate a
/// zeroed page, which changes nothing that the guest can see.
#[verifier::external_body]
pub(crate) fn load_byte(
    machine: &mut DefaultCoreMachine<u64, SparseMemory<u64>>,
    address: u64,
) -> (loaded: Result<u8, ckb_vm::Error>)
    ensures
        same_guest_state(*old(machine), *final(machine)),
        machine_cycles(*final(machine)) == machine_cycles(*old(machine)),
        machine_memory(*old(machine)).len() == GUEST_MEMORY_SIZE,
        address < GUEST_MEMORY_SIZE ==> loaded is Ok && loaded->Ok_0 == machine_memory(
            *old(machine),
        )[address as int],
        address >= GUEST_MEMORY_SIZE ==> loaded is Err && loaded->Err_0 == load_fault(address),
{
    let loaded = machine.memory_mut().load8(&address)?;
    Ok(loaded.to_u8())
}

/// Charges cycles through `SupportMachine::add_cycles`. Not verified. By
/// its source the call fails, and leaves the counter as it was, exactly when
/// the new total would overflow or exceed the budget; which of the two
/// errors it fails with follows from the counter and the charge. Otherwise
/// it adds.
#[verifier::external_body]
pub(crate) fn add_cycles(
    machine: &mut DefaultCoreMachine<u64, SparseMemory<u64>>,
    cycles: u64,
) -> (charged: Result<(), ckb_vm::Error>)
    ensures
        same_guest_state(*old(machine), *final(machine)),
        charged is Ok <==> machine_cycles(*old(machine)) + cycles <= machine_max_cycles(
            *old(machine),
        ),
        charged is Ok ==> machine_cycles(*final(machine)) == machine_cycles(*old(machine))
            + cycles,
        charged is Err ==> machine_cycles(*final(machine)) == machine_cycles(*old(machine))
            && charged->Err_0 == charge_fault(machine_cycles(*old(machine)), cycles),
{
    machine.add_cycles(cycles)
}

} // verus!
