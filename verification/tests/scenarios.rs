use emu::arch::Flags;
use emu::arch::Instruction;
use emu::machine::DumpRecord;
use emu::machine::Machine;
use emu::machine::StepResult;

fn program(instructions: &[Instruction]) -> Vec<u8> {
    instructions.iter().map(|i| i.opcode()).collect()
}

#[test]
fn new_machine_is_zeroed() {
    let m = Machine::new(vec![1, 2, 3]);
    assert_eq!(m.reg_a8, 0);
    assert_eq!(m.reg_b8, 0);
    assert_eq!(m.reg_c8, 0);
    assert_eq!(m.reg_ic, 0);
    assert_eq!(m.reg_flags, 0);
    assert_eq!(m.memory, vec![1, 2, 3]);
}

#[test]
fn scenario_increments_and_subtract() {
    // 4 increments of A, 3 of B, then A <- A - B, then DUMP.
    let mut m = Machine::new(program(&[
        Instruction::INCA,
        Instruction::INCA,
        Instruction::INCA,
        Instruction::INCA,
        Instruction::INCB,
        Instruction::INCB,
        Instruction::INCB,
        Instruction::SUBAB,
        Instruction::DUMP,
    ]));
    let dumps = m.exec();
    assert_eq!(m.reg_a8, 1);
    assert_eq!(m.reg_b8, 3);
    assert_eq!(m.reg_c8, 0);
    assert_eq!(m.reg_ic, 9);
    assert_eq!(
        dumps,
        vec![DumpRecord { reg_a8: 1, reg_b8: 3, reg_c8: 0, reg_flags: 0, reg_ic: 9 }]
    );
}

#[test]
fn scenario_compare_after_increments() {
    // A becomes 2, B becomes 1, then CMPAB leaves Greater set.
    let mut m = Machine::new(program(&[
        Instruction::INCA,
        Instruction::INCA,
        Instruction::INCB,
        Instruction::CMPAB,
        Instruction::DUMP,
    ]));
    let dumps = m.exec();
    assert_eq!(m.reg_a8, 2);
    assert_eq!(m.reg_b8, 1);
    assert!(m.flag(Flags::CmpGreater));
    assert!(!m.flag(Flags::CmpEqual));
    assert!(!m.flag(Flags::CmpLess));
    assert_eq!(dumps.len(), 1);
    assert_eq!(dumps[0].reg_flags, Flags::CmpGreater.mask());
}

#[test]
fn scenario_empty_memory_faults_at_once() {
    let mut m = Machine::new(Vec::new());
    assert_eq!(m.step(), StepResult::Fault);
    let dumps = m.exec();
    assert!(dumps.is_empty());
    assert_eq!(m.reg_ic, 0);
    assert_eq!(m.reg_a8, 0);
}

#[test]
fn scenario_pointer_past_the_end_faults() {
    // One instruction runs; the next fetch is past the buffer and faults,
    // changing nothing.
    let mut m = Machine::new(program(&[Instruction::INCA]));
    assert_eq!(m.step(), StepResult::Ran);
    assert_eq!(m.reg_ic, 1);
    let before_a = m.reg_a8;
    let before_ic = m.reg_ic;
    assert_eq!(m.step(), StepResult::Fault);
    assert_eq!(m.reg_a8, before_a);
    assert_eq!(m.reg_ic, before_ic);
}

#[test]
fn every_opcode_advances_the_pointer_by_one() {
    let mut opcodes: Vec<u8> = (0x00u8..=0x18).collect();
    opcodes.push(0xFF);
    opcodes.push(0x42); // an unassigned byte behaves as DUMP
    for op in opcodes {
        let mut m = Machine::new(vec![op]);
        let r = m.step();
        assert_ne!(r, StepResult::Fault);
        assert_eq!(m.reg_ic, 1);
    }
}

#[test]
fn unassigned_opcode_behaves_as_dump() {
    let mut m = Machine::new(vec![0x42]);
    assert_eq!(m.step(), StepResult::Dumped);
    let snap = m.snapshot();
    assert_eq!(snap, DumpRecord { reg_a8: 0, reg_b8: 0, reg_c8: 0, reg_flags: 0, reg_ic: 1 });
}

#[test]
fn dump_does_not_mutate_state() {
    let mut m = Machine::new(program(&[Instruction::INCA, Instruction::DUMP]));
    m.step();
    let a = m.reg_a8;
    let flags = m.reg_flags;
    assert_eq!(m.step(), StepResult::Dumped);
    assert_eq!(m.reg_a8, a);
    assert_eq!(m.reg_flags, flags);
    assert_eq!(m.reg_ic, 2);
}

#[test]
fn dumps_come_in_program_order() {
    let mut m = Machine::new(program(&[
        Instruction::DUMP,
        Instruction::INCA,
        Instruction::DUMP,
        Instruction::INCB,
        Instruction::DUMP,
    ]));
    let dumps = m.exec();
    assert_eq!(dumps.len(), 3);
    assert_eq!((dumps[0].reg_a8, dumps[0].reg_b8, dumps[0].reg_ic), (0, 0, 1));
    assert_eq!((dumps[1].reg_a8, dumps[1].reg_b8, dumps[1].reg_ic), (1, 0, 3));
    assert_eq!((dumps[2].reg_a8, dumps[2].reg_b8, dumps[2].reg_ic), (1, 1, 5));
}

#[test]
fn moves_copy_the_named_register() {
    // MOVBA then MOVCB: A's value spreads to B, then B's to C.
    let mut m = Machine::new(program(&[
        Instruction::INCA,
        Instruction::INCA,
        Instruction::MOVBA,
        Instruction::MOVCB,
    ]));
    m.exec();
    assert_eq!(m.reg_a8, 2);
    assert_eq!(m.reg_b8, 2);
    assert_eq!(m.reg_c8, 2);
}

#[test]
fn snapshot_mirrors_the_machine() {
    let mut m = Machine::new(Vec::new());
    m.reg_a8 = 11;
    m.reg_b8 = 22;
    m.reg_c8 = 33;
    m.reg_flags = 0b_0000_1010;
    let snap = m.snapshot();
    assert_eq!(
        snap,
        DumpRecord { reg_a8: 11, reg_b8: 22, reg_c8: 33, reg_flags: 0b_0000_1010, reg_ic: 0 }
    );
}
