use mymix::machine::MyMix;
use mymix::model::{Fault, Flag};

fn instr(address: u64, index: u8, modifier: u8, op_code: u8) -> u64 {
    (address << 24) | ((index as u64) << 16) | ((modifier as u64) << 8) | (op_code as u64)
}

#[test]
fn read_dispatches_by_operation_code() {
    let mut m = MyMix::new();
    m.mem[50] = 9;
    m.mem[1] = instr(50, 0, 0, 8);
    assert_eq!(m.read(), Ok(false));
    assert_eq!(m.a, 9);
    m.mem[1] = instr(50, 0, 0, 1);
    assert_eq!(m.read(), Ok(false));
    assert_eq!(m.a, 18);
    m.mem[1] = instr(51, 0, 0, 24);
    assert_eq!(m.read(), Ok(false));
    assert_eq!(m.mem[51], 18);
    m.mem[1] = instr(3, 0, 2, 55);
    assert_eq!(m.read(), Ok(false));
    assert_eq!(m.x, 3);
    m.mem[1] = instr(50, 0, 0, 63);
    assert_eq!(m.read(), Ok(false));
    assert_eq!(m.flag, Flag::Less);
    // The pointer is not moved on by a fetch.
    assert_eq!(m.instr_ptr, 1);
    m.mem[1] = instr(70, 0, 0, 39);
    assert_eq!(m.read(), Ok(true));
    assert_eq!((m.instr_ptr, m.j), (70, 2));
}

#[test]
fn read_refuses_codes_in_no_family() {
    for op in [0u8, 5, 6, 7, 16, 23, 34, 38, 64, 255] {
        let mut m = MyMix::new();
        m.mem[1] = instr(50, 0, 0, op);
        assert_eq!(m.read(), Err(Fault::UnknownInstruction(instr(50, 0, 0, op))));
    }
    for op in 41u8..=47 {
        let mut m = MyMix::new();
        m.mem[1] = instr(50, 0, 0, op);
        assert_eq!(m.read(), Err(Fault::UnknownInstruction(instr(50, 0, 0, op))));
    }
}

#[test]
fn read_fetches_cell_zero_when_asked() {
    let mut m = MyMix::new();
    m.instr_ptr = 0;
    m.mem[0] = instr(5, 0, 2, 48);
    assert_eq!(m.read(), Ok(false));
    assert_eq!(m.a, 5);
}

#[test]
fn pointer_past_memory_is_a_fault() {
    let mut m = MyMix::new();
    m.instr_ptr = 100;
    assert_eq!(m.read(), Err(Fault::PointerOutOfRange(100)));
    assert_eq!(m.step(), Err(Fault::PointerOutOfRange(100)));
    assert_eq!(m.run(10), Err(Fault::PointerOutOfRange(100)));
    assert_eq!(m.instr_ptr, 100);
}

#[test]
fn running_off_the_end_is_a_fault() {
    let mut m = MyMix::new();
    m.instr_ptr = 99;
    m.mem[99] = instr(1, 0, 0, 48);
    assert_eq!(m.run(10), Err(Fault::PointerOutOfRange(100)));
    assert_eq!(m.a, 1);
    assert_eq!(m.instr_ptr, 100);
}

#[test]
fn step_moves_the_pointer_on() {
    let mut m = MyMix::new();
    m.mem[1] = instr(4, 0, 2, 48);
    assert_eq!(m.step(), Ok(()));
    assert_eq!(m.a, 4);
    assert_eq!(m.instr_ptr, 2);
}

#[test]
fn step_does_not_move_on_after_a_jump() {
    let mut m = MyMix::new();
    m.mem[1] = instr(30, 0, 1, 39);
    assert_eq!(m.step(), Ok(()));
    assert_eq!(m.instr_ptr, 30);
    assert_eq!(m.j, 0);
}

#[test]
fn step_after_a_jump_to_itself_stays() {
    let mut m = MyMix::new();
    m.instr_ptr = 5;
    m.mem[5] = instr(5, 0, 1, 39);
    assert_eq!(m.step(), Ok(()));
    assert_eq!(m.instr_ptr, 5);
}

#[test]
fn step_leaves_the_machine_on_a_fault() {
    let mut m = MyMix::new();
    m.a = 3;
    m.mem[1] = instr(10, 0, 0, 4);
    assert_eq!(m.step(), Err(Fault::DivisionByZero(instr(10, 0, 0, 4))));
    assert_eq!(m.a, 3);
    assert_eq!(m.instr_ptr, 1);
}

#[test]
fn conditional_jump_not_taken_moves_on_by_one() {
    let mut m = MyMix::new();
    m.instr_ptr = 6;
    m.mem[6] = instr(50, 0, 4, 39);
    m.flag = Flag::Equal;
    assert_eq!(m.step(), Ok(()));
    assert_eq!(m.instr_ptr, 7);
    assert_eq!(m.j, 0);
}

#[test]
fn conditional_jump_taken_goes_to_the_target() {
    let mut m = MyMix::new();
    m.instr_ptr = 6;
    m.mem[6] = instr(50, 0, 5, 39);
    m.flag = Flag::Equal;
    assert_eq!(m.step(), Ok(()));
    assert_eq!(m.instr_ptr, 50);
    assert_eq!(m.j, 7);
}

#[test]
fn halted_machine_does_not_fetch_cell_zero() {
    let mut m = MyMix::new();
    m.instr_ptr = 0;
    // An instruction that would change A, and one that would fault.
    m.mem[0] = instr(5, 0, 2, 48);
    assert_eq!(m.step(), Ok(()));
    assert_eq!(m.run(1000), Ok(true));
    assert_eq!(m.a, 0);
    assert_eq!(m.instr_ptr, 0);
    m.mem[0] = 0;
    assert_eq!(m.step(), Ok(()));
    assert_eq!(m.run(1000), Ok(true));
}

#[test]
fn jump_to_zero_halts_the_run() {
    let mut m = MyMix::new();
    m.mem[0] = instr(5, 0, 2, 48);
    m.mem[1] = instr(9, 0, 2, 55);
    m.mem[2] = instr(0, 0, 1, 39);
    assert_eq!(m.run(u64::MAX), Ok(true));
    assert_eq!(m.instr_ptr, 0);
    assert_eq!(m.x, 9);
    assert_eq!(m.a, 0);
}

#[test]
fn run_stops_when_the_steps_run_out() {
    let mut m = MyMix::new();
    // Counts in A for ever.
    m.mem[1] = instr(1, 0, 0, 48);
    m.mem[2] = instr(1, 0, 1, 39);
    assert_eq!(m.run(0), Ok(false));
    assert_eq!((m.a, m.instr_ptr), (0, 1));
    assert_eq!(m.run(7), Ok(false));
    assert_eq!((m.a, m.instr_ptr), (4, 2));
    assert_eq!(m.run(1), Ok(false));
    assert_eq!((m.a, m.instr_ptr), (4, 1));
}

#[test]
fn run_reports_the_fault_and_the_state_before_it() {
    let mut m = MyMix::new();
    m.mem[1] = instr(6, 0, 2, 48);
    m.mem[2] = instr(1, 0, 9, 48);
    assert_eq!(m.run(100), Err(Fault::UnknownInstruction(instr(1, 0, 9, 48))));
    assert_eq!((m.a, m.instr_ptr), (6, 2));
}

#[test]
fn run_of_an_empty_memory_faults_on_the_zero_word() {
    let mut m = MyMix::new();
    assert_eq!(m.run(100), Err(Fault::UnknownInstruction(0)));
    assert_eq!(m.instr_ptr, 1);
}

fn summing_program(add: u64) -> MyMix {
    let mut m = MyMix::new();
    m.mem[1] = u64::from_be_bytes([0, 0, 0, 0, 10, 0, 0, 8]);
    m.mem[2] = add;
    m.mem[3] = u64::from_be_bytes([0, 0, 0, 0, 11, 1, 0, 24]);
    m.mem[4] = u64::from_be_bytes([0, 0, 0, 0, 1, 0, 0, 49]);
    m.mem[5] = u64::from_be_bytes([0, 0, 0, 0, 50, 0, 0, 57]);
    m.mem[6] = u64::from_be_bytes([0, 0, 0, 0, 1, 0, 8, 39]);
    m.mem[7] = u64::from_be_bytes([0, 0, 0, 0, 0, 0, 1, 39]);
    m.mem[50] = u64::from_be_bytes([0, 0, 0, 0, 0, 0, 0, 5]);
    m.mem[10] = u64::from_be_bytes([1, 2, 3, 5, 8, 13, 21, 37]);
    m
}

#[test]
fn summing_program_leaves_running_sums() {
    // The arithmetic family reaches I1 with index field 0, so this is the
    // instruction that adds cell 10 + I1.
    let mut m = summing_program(u64::from_be_bytes([0, 0, 0, 0, 10, 0, 0, 1]));
    let v = u64::from_be_bytes([1, 2, 3, 5, 8, 13, 21, 37]);
    assert_eq!(m.run(u64::MAX), Ok(true));
    assert_eq!(m.instr_ptr, 0);
    assert_eq!(m.i[0], 5);
    assert_eq!(m.mem[10], v);
    for k in 0..5u64 {
        assert_eq!(m.mem[11 + k as usize], v.wrapping_mul(k + 2));
    }
    assert_eq!(m.mem[16], 0);
    assert_eq!(m.a, v.wrapping_mul(6));
    assert_eq!(m.flag, Flag::Equal);
    // The conditional jump was taken four times, from cell 6.
    assert_eq!(m.j, 7);
}

#[test]
fn summing_program_with_index_field_one_adds_cell_ten() {
    // With index field 1 the addition is indexed by I2, which stays zero:
    // each round stores twice cell 10.
    let mut m = summing_program(u64::from_be_bytes([0, 0, 0, 0, 10, 1, 0, 1]));
    let v = u64::from_be_bytes([1, 2, 3, 5, 8, 13, 21, 37]);
    assert_eq!(m.run(u64::MAX), Ok(true));
    assert_eq!(m.instr_ptr, 0);
    assert_eq!(m.i[0], 5);
    for k in 11..16 {
        assert_eq!(m.mem[k], v.wrapping_mul(2));
    }
    assert_eq!(m.mem[16], 0);
}

#[test]
fn summing_program_takes_thirty_one_steps() {
    let mut m = summing_program(u64::from_be_bytes([0, 0, 0, 0, 10, 0, 0, 1]));
    assert_eq!(m.run(30), Ok(false));
    assert_eq!(m.instr_ptr, 7);
    assert_eq!(m.run(1), Ok(true));
    assert_eq!(m.instr_ptr, 0);
}

#[test]
fn nonzero_cells_lists_what_is_loaded() {
    let mut m = MyMix::new();
    assert_eq!(m.nonzero_cells(), vec![]);
    m.mem[99] = 1;
    m.mem[0] = 7;
    m.mem[42] = u64::MAX;
    assert_eq!(m.nonzero_cells(), vec![(0, 7), (42, u64::MAX), (99, 1)]);
}

#[test]
fn jump_past_memory_faults_at_the_next_fetch() {
    let mut m = MyMix::new();
    m.mem[1] = instr(100, 0, 0, 39);
    assert_eq!(m.step(), Ok(()));
    assert_eq!((m.instr_ptr, m.j), (100, 2));
    assert_eq!(m.step(), Err(Fault::PointerOutOfRange(100)));
    assert_eq!((m.instr_ptr, m.j), (100, 2));
}

#[test]
fn indexed_jump_to_zero_halts() {
    let mut m = MyMix::new();
    m.i[3] = u64::MAX - 9;
    // 10 + (2^64 - 10) wraps to 0.
    m.mem[1] = instr(10, 4, 1, 39);
    assert_eq!(m.run(5), Ok(true));
    assert_eq!(m.instr_ptr, 0);
}
