use ckb_vm::machine::VERSION1;
use ckb_vm::registers::{A0, A1, A7};
use ckb_vm::{
    CoreMachine, DefaultCoreMachine, Error, Memory, SparseMemory, SupportMachine, ISA_IMC,
    RISCV_MAX_MEMORY,
};
use ckb_vm_debugger::cost_model::transferred_byte_cycles;
use ckb_vm_debugger::debugger::{
    decode_buffer, scan_buffer, Debugger, SyscallError, Trap, BUFFER_ADDRESS_REGISTER,
    DEBUG_PRINT_SYSCALL_NUMBER, SYSCALL_NUMBER_REGISTER,
};
use ckb_vm_debugger::machine::{GUEST_MEMORY_SIZE, REGISTER_COUNT};

type Machine = DefaultCoreMachine<u64, SparseMemory<u64>>;

fn machine_with(max_cycles: u64, number: u64, address: u64, bytes: &[u8]) -> Machine {
    let mut machine = Machine::new(ISA_IMC, VERSION1, max_cycles);
    machine.set_register(A7, number);
    machine.set_register(A0, address);
    machine.set_register(A1, 0xDEAD_BEEF);
    if !bytes.is_empty() {
        machine.memory_mut().store_bytes(address, bytes).unwrap();
    }
    machine
}

fn memory_at(machine: &mut Machine, address: u64, length: u64) -> Vec<u8> {
    let mut bytes = Vec::new();
    for offset in 0..length {
        bytes.push(machine.memory_mut().load8(&(address + offset)).unwrap() as u8);
    }
    bytes
}

#[test]
fn constants_match_the_machine() {
    assert_eq!(DEBUG_PRINT_SYSCALL_NUMBER, 2177);
    assert_eq!(SYSCALL_NUMBER_REGISTER, A7);
    assert_eq!(BUFFER_ADDRESS_REGISTER, A0);
    assert_eq!(REGISTER_COUNT, ckb_vm::RISCV_GENERAL_REGISTER_NUMBER);
    assert_eq!(GUEST_MEMORY_SIZE, RISCV_MAX_MEMORY as u64);
}

#[test]
fn initialize_leaves_the_machine_alone() {
    let mut machine = machine_with(1000, 2177, 0x1000, b"hello\0");
    machine.set_cycles(7);
    let registers = machine.registers().to_vec();
    assert!(Debugger::new().initialize(&mut machine).is_ok());
    assert_eq!(machine.cycles(), 7);
    assert_eq!(machine.registers().to_vec(), registers);
    assert_eq!(memory_at(&mut machine, 0x1000, 6), b"hello\0".to_vec());
}

#[test]
fn other_syscall_is_not_handled() {
    let mut machine = machine_with(1000, 2176, 0x1000, b"hello\0");
    machine.set_cycles(11);
    let registers = machine.registers().to_vec();
    let outcome = Debugger::new().ecall(&mut machine);
    assert!(matches!(outcome, Ok(Trap::NotHandled)));
    assert_eq!(machine.cycles(), 11);
    assert_eq!(machine.registers().to_vec(), registers);
}

#[test]
fn other_syscall_reads_no_memory() {
    // The address is unreadable: any load would fail the call.
    let mut machine = machine_with(1000, 0, u64::MAX, b"");
    assert!(matches!(Debugger::new().ecall(&mut machine), Ok(Trap::NotHandled)));
    let mut machine = machine_with(1000, 2178, RISCV_MAX_MEMORY as u64, b"");
    assert!(matches!(Debugger::new().ecall(&mut machine), Ok(Trap::NotHandled)));
    assert_eq!(machine.cycles(), 0);
}

#[test]
fn hello_is_read_charged_and_returned() {
    let mut machine = machine_with(1000, 2177, 0x2000, b"hello\0world\0");
    machine.set_cycles(40);
    let registers = machine.registers().to_vec();
    let outcome = Debugger::new().ecall(&mut machine);
    match outcome {
        Ok(Trap::Handled(text)) => assert_eq!(text, "hello"),
        other => panic!("unexpected outcome: {:?}", other),
    }
    assert_eq!(transferred_byte_cycles(5), 2);
    assert_eq!(machine.cycles(), 42);
    assert_eq!(machine.registers().to_vec(), registers);
    assert_eq!(memory_at(&mut machine, 0x2000, 12), b"hello\0world\0".to_vec());
}

#[test]
fn text_is_returned_as_given() {
    let mut machine = machine_with(1000, 2177, 0x10, b"line one\nline \"two\"\t\\n\0");
    match Debugger::new().ecall(&mut machine) {
        Ok(Trap::Handled(text)) => assert_eq!(text, "line one\nline \"two\"\t\\n"),
        other => panic!("unexpected outcome: {:?}", other),
    }
    assert_eq!(machine.cycles(), 6);
}

#[test]
fn empty_buffer_prints_nothing_for_free() {
    let mut machine = machine_with(1000, 2177, 0x3000, b"\0hidden\0");
    machine.set_cycles(9);
    match Debugger::new().ecall(&mut machine) {
        Ok(Trap::Handled(text)) => assert_eq!(text, ""),
        other => panic!("unexpected outcome: {:?}", other),
    }
    assert_eq!(machine.cycles(), 9);
}

#[test]
fn untouched_memory_reads_as_an_empty_buffer() {
    let mut machine = machine_with(0, 2177, 0x3F_0000, b"");
    match Debugger::new().ecall(&mut machine) {
        Ok(Trap::Handled(text)) => assert_eq!(text, ""),
        other => panic!("unexpected outcome: {:?}", other),
    }
    assert_eq!(machine.cycles(), 0);
}

#[test]
fn multi_byte_text_is_decoded() {
    let mut bytes = "h\u{e9}llo, w\u{f6}rld \u{2713}".as_bytes().to_vec();
    let length = bytes.len() as u64;
    bytes.push(0);
    let mut machine = machine_with(1000, 2177, 0x4000, &bytes);
    match Debugger::new().ecall(&mut machine) {
        Ok(Trap::Handled(text)) => assert_eq!(text, "h\u{e9}llo, w\u{f6}rld \u{2713}"),
        other => panic!("unexpected outcome: {:?}", other),
    }
    assert_eq!(machine.cycles(), transferred_byte_cycles(length));
}

#[test]
fn buffer_may_cross_a_page() {
    let mut bytes = vec![b'a'; 5000];
    bytes.push(0);
    let mut machine = machine_with(10_000, 2177, 0xFF0, &bytes);
    match Debugger::new().ecall(&mut machine) {
        Ok(Trap::Handled(text)) => assert_eq!(text, "a".repeat(5000)),
        other => panic!("unexpected outcome: {:?}", other),
    }
    assert_eq!(machine.cycles(), 1250);
}

#[test]
fn invalid_text_is_a_decode_error() {
    let mut machine = machine_with(1000, 2177, 0x5000, &[b'o', b'k', 0xFF, 0xFE, b'!', 0]);
    let registers = machine.registers().to_vec();
    let outcome = Debugger::new().ecall(&mut machine);
    assert!(matches!(outcome, Err(SyscallError::Decode)));
    assert_eq!(machine.registers().to_vec(), registers);
    assert_eq!(memory_at(&mut machine, 0x5000, 6), vec![b'o', b'k', 0xFF, 0xFE, b'!', 0]);
    // The bytes were read, so they were charged for before decoding.
    assert_eq!(machine.cycles(), transferred_byte_cycles(5));
}

#[test]
fn truncated_character_is_a_decode_error() {
    let mut machine = machine_with(1000, 2177, 0x5000, &[0xE2, 0x9C, 0]);
    assert!(matches!(Debugger::new().ecall(&mut machine), Err(SyscallError::Decode)));
}

#[test]
fn unterminated_buffer_is_a_memory_error() {
    let start = RISCV_MAX_MEMORY as u64 - 6;
    let mut machine = machine_with(1000, 2177, start, b"never!");
    machine.set_cycles(3);
    let registers = machine.registers().to_vec();
    match Debugger::new().ecall(&mut machine) {
        Err(SyscallError::Memory(fault)) => assert_eq!(fault, Error::OutOfBound),
        other => panic!("unexpected outcome: {:?}", other),
    }
    assert_eq!(machine.cycles(), 3);
    assert_eq!(machine.registers().to_vec(), registers);
    assert_eq!(memory_at(&mut machine, start, 6), b"never!".to_vec());
}

#[test]
fn address_outside_memory_is_a_memory_error() {
    for address in [RISCV_MAX_MEMORY as u64, 1 << 40, u64::MAX] {
        let mut machine = machine_with(1000, 2177, address, b"");
        match Debugger::new().ecall(&mut machine) {
            Err(SyscallError::Memory(fault)) => assert_eq!(fault, Error::OutOfBound),
            other => panic!("unexpected outcome: {:?}", other),
        }
        assert_eq!(machine.cycles(), 0);
    }
}

#[test]
fn last_byte_of_memory_can_end_a_buffer() {
    let start = RISCV_MAX_MEMORY as u64 - 3;
    let mut machine = machine_with(1000, 2177, start, b"ab\0");
    match Debugger::new().ecall(&mut machine) {
        Ok(Trap::Handled(text)) => assert_eq!(text, "ab"),
        other => panic!("unexpected outcome: {:?}", other),
    }
    assert_eq!(machine.cycles(), 1);
}

#[test]
fn charge_beyond_the_budget_fails_the_print() {
    let mut machine = machine_with(10, 2177, 0x6000, b"hello\0");
    machine.set_cycles(9);
    match Debugger::new().ecall(&mut machine) {
        Err(SyscallError::Cycles(exhausted)) => assert_eq!(exhausted, Error::InvalidCycles),
        other => panic!("unexpected outcome: {:?}", other),
    }
    assert_eq!(machine.cycles(), 9);
}

#[test]
fn charge_that_meets_the_budget_exactly_succeeds() {
    let mut machine = machine_with(11, 2177, 0x6000, b"hello\0");
    machine.set_cycles(9);
    assert!(matches!(Debugger::new().ecall(&mut machine), Ok(Trap::Handled(_))));
    assert_eq!(machine.cycles(), 11);
}

#[test]
fn charge_that_overflows_the_counter_fails_the_print() {
    let mut machine = machine_with(u64::MAX, 2177, 0x6000, b"hello\0");
    machine.set_cycles(u64::MAX - 1);
    match Debugger::new().ecall(&mut machine) {
        Err(SyscallError::Cycles(exhausted)) => assert_eq!(exhausted, Error::CyclesOverflow),
        other => panic!("unexpected outcome: {:?}", other),
    }
    assert_eq!(machine.cycles(), u64::MAX - 1);
}

#[test]
fn budget_is_checked_before_the_text() {
    let mut machine = machine_with(0, 2177, 0x6000, &[0xFF, 0]);
    assert!(matches!(Debugger::new().ecall(&mut machine), Err(SyscallError::Cycles(_))));
}

#[test]
fn scan_buffer_collects_up_to_the_zero() {
    let mut machine = machine_with(1000, 0, 0, b"");
    machine.memory_mut().store_bytes(0x700, &[1, 2, 3, 0, 4]).unwrap();
    assert_eq!(scan_buffer(&mut machine, 0x700), Ok(vec![1, 2, 3]));
    assert_eq!(scan_buffer(&mut machine, 0x702), Ok(vec![3]));
    assert_eq!(scan_buffer(&mut machine, 0x703), Ok(vec![]));
    assert_eq!(scan_buffer(&mut machine, 0x704), Ok(vec![4]));
    assert_eq!(scan_buffer(&mut machine, u64::MAX), Err(Error::OutOfBound));
    assert_eq!(machine.cycles(), 0);
}

#[test]
fn decode_buffer_accepts_text_only() {
    match decode_buffer(b"plain".to_vec()) {
        Ok(Trap::Handled(text)) => assert_eq!(text, "plain"),
        other => panic!("unexpected outcome: {:?}", other),
    }
    match decode_buffer(Vec::new()) {
        Ok(Trap::Handled(text)) => assert_eq!(text, ""),
        other => panic!("unexpected outcome: {:?}", other),
    }
    assert!(matches!(decode_buffer(vec![0xC0, 0x80]), Err(SyscallError::Decode)));
    assert!(matches!(decode_buffer(vec![0xED, 0xA0, 0x80]), Err(SyscallError::Decode)));
}
