//! Charging the cost of retired instructions against a machine's budget.

use crate::cost_model::instruction_cost;
use crate::cost_model::instruction_cycles;
use crate::machine::add_cycles;
use crate::machine::charge_fault;
use crate::machine::machine_cycles;
use crate::machine::machine_max_cycles;
use crate::machine::same_guest_state;
use ckb_vm::DefaultCoreMachine;
use ckb_vm::SparseMemory;
use vstd::prelude::*;

verus! {

/// The budget ran out while instructions were being charged.
#[derive(Debug)]
pub struct BudgetExhausted {
    /// Position of the instruction whose cost did not fit.
    pub index: usize,
    /// The machine's own error.
    pub error: ckb_vm::Error,
}

/// The summed cost of the first `count` instructions.
pub open spec fn total_cost(instructions: Seq<u64>, count: int) -> int
    decreases count,
{
    if count <= 0 {
        0
    } else {
        total_cost(instructions, count - 1) + instruction_cost(instructions[count - 1])
    }
}

/// The summed cost never shrinks as more instructions are counted.
pub proof fn total_cost_monotonic(instructions: Seq<u64>, fewer: int, more: int)
    requires
        fewer <= more,
    ensures
        total_cost(instructions, fewer) <= total_cost(instructions, more),
    decreases more - fewer,
{
    if fewer < more {
        total_cost_monotonic(instructions, fewer, more - 1);
    }
}

/// Charges the cost of one retired instruction.
///
/// The charge is made exactly when the new total stays within the budget;
/// otherwise the counter keeps its value and the machine's error comes back.
pub fn charge_instruction(
    machine: &mut DefaultCoreMachine<u64, SparseMemory<u64>>,
    instruction: u64,
) -> (charged: Result<(), ckb_vm::Error>)
    ensures
        same_guest_state(*old(machine), *final(machine)),
        charged is Ok <==> machine_cycles(*old(machine)) + instruction_cost(instruction)
            <= machine_max_cycles(*old(machine)),
        charged is Ok ==> machine_cycles(*final(machine)) == machine_cycles(*old(machine))
            + instruction_cost(instruction),
        charged matches Err(fault) ==> machine_cycles(*final(machine)) == machine_cycles(
            *old(machine),
        ) && fault == charge_fault(machine_cycles(*old(machine)), instruction_cost(instruction)),
{
    add_cycles(machine, instruction_cycles(instruction))
}

/// Charges the instructions in order and stops at the first one whose cost
/// pushes the total past the budget.
///
/// On failure `index` is the position of exactly that instruction: all
/// before it were charged in full, and it was not. An empty list charges
/// nothing and succeeds whatever the counter holds.
pub fn charge_instructions(
    machine: &mut DefaultCoreMachine<u64, SparseMemory<u64>>,
    instructions: &Vec<u64>,
) -> (charged: Result<(), BudgetExhausted>)
    ensures
        same_guest_state(*old(machine), *final(machine)),
        charged is Ok <==> instructions@.len() == 0 || machine_cycles(*old(machine)) + total_cost(
            instructions@,
            instructions@.len() as int,
        ) <= machine_max_cycles(*old(machine)),
        charged is Ok ==> machine_cycles(*final(machine)) == machine_cycles(*old(machine))
            + total_cost(instructions@, instructions@.len() as int),
        charged matches Err(exhausted) ==> {
            &&& exhausted.index < instructions@.len()
            &&& forall|count: int|
                0 < count <= exhausted.index ==> machine_cycles(*old(machine)) + #[trigger] total_cost(
                    instructions@,
                    count,
                ) <= machine_max_cycles(*old(machine))
            &&& machine_cycles(*old(machine)) + total_cost(
                instructions@,
                exhausted.index + 1,
            ) > machine_max_cycles(*old(machine))
            &&& machine_cycles(*final(machine)) == machine_cycles(*old(machine)) + total_cost(
                instructions@,
                exhausted.index as int,
            )
            &&& exhausted.error == charge_fault(
                machine_cycles(*final(machine)),
                instruction_cost(instructions@[exhausted.index as int]),
            )
        },
{
    let ghost before = *machine;
    let mut index: usize = 0;
    while index < instructions.len()
        invariant
            before == *old(machine),
            same_guest_state(before, *machine),
            index <= instructions@.len(),
            machine_cycles(*machine) == machine_cycles(before) + total_cost(
                instructions@,
                index as int,
            ),
            index > 0 ==> machine_cycles(*machine) <= machine_max_cycles(before),
        decreases instructions@.len() - index,
    {
        match charge_instruction(machine, instructions[index]) {
            Ok(()) => {},
            Err(error) => {
                proof {
                    total_cost_monotonic(
                        instructions@,
                        index + 1,
                        instructions@.len() as int,
                    );
                    assert forall|count: int| 0 < count <= index implies machine_cycles(before)
                        + #[trigger] total_cost(instructions@, count) <= machine_max_cycles(
                        before,
                    ) by {
                        total_cost_monotonic(instructions@, count, index as int);
                    }
                }
                return Err(BudgetExhausted { index, error });
            },
        }
        index += 1;
    }
    Ok(())
}

} // verus!
