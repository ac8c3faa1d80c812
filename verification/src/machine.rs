//! The machine itself: registers, flag, memory and pointer, and the
//! handlers that execute one instruction each.

use crate::codec::Word;
use crate::model::{
    arith_effective, arith_spec, compare_spec, effective, inc_dec_ent_spec, jump_spec, load_spec,
    nonzero_cells_spec, read_spec, run_spec, step_spec, store_spec, Fault, Flag, State,
};
use vstd::prelude::*;

verus! {

/// The machine. Memory is loaded by writing encoded words into `mem`.
pub struct MyMix {
    /// The accumulator.
    pub a: u64,
    /// The extension register.
    pub x: u64,
    /// The index registers: `i[0]` is I1.
    pub i: [u64; 6],
    /// The jump-return register.
    pub j: u64,
    /// The comparison flag.
    pub flag: Flag,
    pub mem: [u64; 100],
    /// The cell of the next instruction; 0 when the machine has halted.
    pub instr_ptr: u64,
}

impl View for MyMix {
    type V = State;

    open spec fn view(&self) -> State {
        State {
            a: self.a,
            x: self.x,
            i: self.i@,
            j: self.j,
            flag: self.flag,
            mem: self.mem@,
            ip: self.instr_ptr,
        }
    }
}

/// The cell number as an index into memory.
fn cell_index(addr: u64) -> (k: usize)
    requires
        addr < 100,
    ensures
        k == addr,
{
    addr as usize
}

/// Every machine has six index registers and a hundred cells.
pub proof fn lemma_view_shape(m: MyMix)
    ensures
        m@.wf(),
{
}

impl MyMix {
    /// A machine with every register and cell zero, the flag at `Equal`
    /// and the pointer at cell 1.
    pub fn new() -> (m: Self)
        ensures
            m@ == State::initial(),
    {
        let m = Self {
            a: 0,
            x: 0,
            i: [0, 0, 0, 0, 0, 0],
            j: 0,
            flag: Flag::Equal,
            mem: [0;100],
            instr_ptr: 1,
        };
        assert(m@.i =~= State::initial().i);
        assert(m@.mem =~= State::initial().mem);
        m
    }

    /// The word in register number `r`: 0 is A, 1 to 6 are I1 to I6, 7 is
    /// X, 8 is J.
    fn register(&self, r: u8) -> (v: u64)
        requires
            r <= 8,
        ensures
            v == self@.reg(r as int),
    {
        if r == 0 {
            self.a
        } else if r <= 6 {
            self.i[(r - 1) as usize]
        } else if r == 7 {
            self.x
        } else {
            self.j
        }
    }

    /// Puts `v` in register number `r`, numbered as in `register`.
    fn set_register(&mut self, r: u8, v: u64)
        requires
            r <= 8,
        ensures
            final(self)@ == old(self)@.with_reg(r as int, v),
    {
        if r == 0 {
            self.a = v;
        } else if r <= 6 {
            self.i[(r - 1) as usize] = v;
            assert(self@.i =~= old(self)@.i.update(r - 1, v));
        } else if r == 7 {
            self.x = v;
        } else {
            self.j = v;
        }
    }

    /// The word in memory cell `addr`.
    fn cell(&self, addr: u64) -> (v: u64)
        requires
            addr < 100,
        ensures
            v == self@.mem[addr as int],
    {
        self.mem[cell_index(addr)]
    }

    /// Puts `v` in memory cell `addr`.
    fn set_cell(&mut self, addr: u64, v: u64)
        requires
            addr < 100,
        ensures
            final(self)@ == old(self)@.with_mem(addr as int, v),
    {
        let k = cell_index(addr);
        self.mem[k] = v;
        assert(self@.mem =~= old(self)@.mem.update(addr as int, v));
    }

    /// The effective address of `instruction` for every family but the
    /// arithmetic one.
    fn effective_address(&self, instruction: u64) -> (addr: Option<u64>)
        ensures
            addr == effective(self@, instruction),
    {
        let address = instruction.address();
        let index = instruction.index();
        if index == 0 {
            Some(address)
        } else if index <= 6 {
            Some(address.wrapping_add(self.i[(index - 1) as usize]))
        } else {
            None
        }
    }

    /// The effective address of `instruction` for the arithmetic family.
    fn arith_address(&self, instruction: u64) -> (addr: Option<u64>)
        ensures
            addr == arith_effective(self@, instruction),
    {
        let address = instruction.address();
        let index = instruction.index();
        if index <= 5 {
            Some(address.wrapping_add(self.i[index as usize]))
        } else {
            None
        }
    }

    /// Executes a load instruction. On a fault nothing has changed.
    pub fn load(&mut self, instruction: u64) -> (res: Result<(), Fault>)
        ensures
            load_spec(old(self)@, instruction) matches Ok(t) ==> res is Ok && final(self)@ == t,
            load_spec(old(self)@, instruction) matches Err(e) ==> res == Err::<(), Fault>(e)
                && final(self)@ == old(self)@,
    {
        let op_code = instruction.op_code();
        match self.effective_address(instruction) {
            None => Err(Fault::BadIndex(instruction)),
            Some(addr) => {
                if op_code < 8 || op_code > 15 {
                    Err(Fault::UnknownInstruction(instruction))
                } else if addr >= 100 {
                    Err(Fault::AddressOutOfRange(instruction))
                } else {
                    let v = self.cell(addr);
                    self.set_register(op_code - 8, v);
                    Ok(())
                }
            },
        }
    }

    /// Executes a store instruction. On a fault nothing has changed.
    pub fn store(&mut self, instruction: u64) -> (res: Result<(), Fault>)
        ensures
            store_spec(old(self)@, instruction) matches Ok(t) ==> res is Ok && final(self)@ == t,
            store_spec(old(self)@, instruction) matches Err(e) ==> res == Err::<(), Fault>(e)
                && final(self)@ == old(self)@,
    {
        let op_code = instruction.op_code();
        match self.effective_address(instruction) {
            None => Err(Fault::BadIndex(instruction)),
            Some(addr) => {
                if op_code < 24 || op_code > 33 {
                    Err(Fault::UnknownInstruction(instruction))
                } else if addr >= 100 {
                    Err(Fault::AddressOutOfRange(instruction))
                } else if op_code == 33 {
                    self.set_cell(addr, 0);
                    Ok(())
                } else {
                    let v = self.register(op_code - 24);
                    self.set_cell(addr, v);
                    Ok(())
                }
            },
        }
    }

    /// Executes an arithmetic instruction. On a fault nothing has changed.
    pub fn arith(&mut self, instruction: u64) -> (res: Result<(), Fault>)
        ensures
            arith_spec(old(self)@, instruction) matches Ok(t) ==> res is Ok && final(self)@ == t,
            arith_spec(old(self)@, instruction) matches Err(e) ==> res == Err::<(), Fault>(e)
                && final(self)@ == old(self)@,
    {
        let op_code = instruction.op_code();
        match self.arith_address(instruction) {
            None => Err(Fault::BadIndex(instruction)),
            Some(addr) => {
                if op_code < 1 || op_code > 4 {
                    Err(Fault::UnknownInstruction(instruction))
                } else if addr >= 100 {
                    Err(Fault::AddressOutOfRange(instruction))
                } else {
                    let m = self.cell(addr);
                    if op_code == 1 {
                        self.a = self.a.wrapping_add(m);
                        Ok(())
                    } else if op_code == 2 {
                        self.a = self.a.wrapping_sub(m);
                        Ok(())
                    } else if op_code == 3 {
                        self.a = self.a.wrapping_mul(m);
                        Ok(())
                    } else if m == 0 {
                        Err(Fault::DivisionByZero(instruction))
                    } else {
                        self.a = self.a / m;
                        Ok(())
                    }
                }
            },
        }
    }

    /// Executes an increment, decrement or enter instruction. On a fault
    /// nothing has changed.
    pub fn inc_dec_ent(&mut self, instruction: u64) -> (res: Result<(), Fault>)
        ensures
            inc_dec_ent_spec(old(self)@, instruction) matches Ok(t) ==> res is Ok && final(self)@
                == t,
            inc_dec_ent_spec(old(self)@, instruction) matches Err(e) ==> res == Err::<(), Fault>(e)
                && final(self)@ == old(self)@,
    {
        let op_code = instruction.op_code();
        let modification = instruction.modifier();
        match self.effective_address(instruction) {
            None => Err(Fault::BadIndex(instruction)),
            Some(addr) => {
                if op_code < 48 || op_code > 55 || modification > 2 {
                    Err(Fault::UnknownInstruction(instruction))
                } else {
                    let r: u8 = op_code - 48;
                    if modification == 0 {
                        let v = self.register(r).wrapping_add(addr);
                        self.set_register(r, v);
                    } else if modification == 1 {
                        let v = self.register(r).wrapping_sub(addr);
                        self.set_register(r, v);
                    } else {
                        self.set_register(r, addr);
                    }
                    Ok(())
                }
            },
        }
    }

    /// Executes a compare instruction. On a fault nothing has changed.
    pub fn cmp(&mut self, instruction: u64) -> (res: Result<(), Fault>)
        ensures
            compare_spec(old(self)@, instruction) matches Ok(t) ==> res is Ok && final(self)@ == t,
            compare_spec(old(self)@, instruction) matches Err(e) ==> res == Err::<(), Fault>(e)
                && final(self)@ == old(self)@,
    {
        let op_code = instruction.op_code();
        match self.effective_address(instruction) {
            None => Err(Fault::BadIndex(instruction)),
            Some(addr) => {
                if op_code < 56 || op_code > 63 {
                    Err(Fault::UnknownInstruction(instruction))
                } else if addr >= 100 {
                    Err(Fault::AddressOutOfRange(instruction))
                } else {
                    let l = self.register(op_code - 56);
                    let r = self.cell(addr);
                    self.flag = if l < r {
                        Flag::Less
                    } else if l == r {
                        Flag::Equal
                    } else {
                        Flag::Greater
                    };
                    Ok(())
                }
            },
        }
    }

    /// Puts the address after the current instruction in J and `addr` in
    /// the pointer.
    pub fn save_and_jump(&mut self, addr: u64)
        ensures
            final(self)@ == (State {
                j: old(self)@.ip.wrapping_add(1),
                ip: addr,
                ..old(self)@
            }),
    {
        self.j = self.instr_ptr.wrapping_add(1);
        self.instr_ptr = addr;
    }

    /// Executes a jump instruction and says whether the jump was taken. On
    /// a fault nothing has changed.
    pub fn jump(&mut self, instruction: u64) -> (res: Result<bool, Fault>)
        ensures
            jump_spec(old(self)@, instruction) matches Ok(t) ==> res == Ok::<bool, Fault>(t.1)
                && final(self)@ == t.0,
            jump_spec(old(self)@, instruction) matches Err(e) ==> res == Err::<bool, Fault>(e)
                && final(self)@ == old(self)@,
    {
        let op_code = instruction.op_code();
        let modifier = instruction.modifier();
        match self.effective_address(instruction) {
            None => Err(Fault::BadIndex(instruction)),
            Some(addr) => {
                if op_code == 40 {
                    Err(Fault::Unimplemented(instruction))
                } else if op_code != 39 {
                    Err(Fault::UnknownInstruction(instruction))
                } else if modifier == 0 {
                    self.save_and_jump(addr);
                    Ok(true)
                } else if modifier == 1 {
                    self.instr_ptr = addr;
                    Ok(true)
                } else if modifier < 4 || modifier > 9 {
                    Err(Fault::UnknownInstruction(instruction))
                } else {
                    let taken = match self.flag {
                        Flag::Less => modifier == 4 || modifier == 8 || modifier == 9,
                        Flag::Equal => modifier == 5 || modifier == 7 || modifier == 9,
                        Flag::Greater => modifier == 6 || modifier == 7 || modifier == 8,
                    };
                    if taken {
                        self.save_and_jump(addr);
                    }
                    Ok(taken)
                }
            },
        }
    }

    /// Fetches the word under the pointer and executes it, whatever the
    /// pointer is, and says whether the instruction jumped. The pointer is
    /// not moved on. On a fault nothing has changed.
    pub fn read(&mut self) -> (res: Result<bool, Fault>)
        ensures
            read_spec(old(self)@) matches Ok(t) ==> res == Ok::<bool, Fault>(t.1) && final(self)@
                == t.0,
            read_spec(old(self)@) matches Err(e) ==> res == Err::<bool, Fault>(e) && final(self)@
                == old(self)@,
    {
        if self.instr_ptr >= 100 {
            return Err(Fault::PointerOutOfRange(self.instr_ptr));
        }
        let instruction = self.cell(self.instr_ptr);
        let op_code = instruction.op_code();
        if 1 <= op_code && op_code <= 4 {
            match self.arith(instruction) {
                Ok(()) => Ok(false),
                Err(e) => Err(e),
            }
        } else if 8 <= op_code && op_code <= 15 {
            match self.load(instruction) {
                Ok(()) => Ok(false),
                Err(e) => Err(e),
            }
        } else if 24 <= op_code && op_code <= 33 {
            match self.store(instruction) {
                Ok(()) => Ok(false),
                Err(e) => Err(e),
            }
        } else if 39 <= op_code && op_code <= 47 {
            self.jump(instruction)
        } else if 48 <= op_code && op_code <= 55 {
            match self.inc_dec_ent(instruction) {
                Ok(()) => Ok(false),
                Err(e) => Err(e),
            }
        } else if 56 <= op_code && op_code <= 63 {
            match self.cmp(instruction) {
                Ok(()) => Ok(false),
                Err(e) => Err(e),
            }
        } else {
            Err(Fault::UnknownInstruction(instruction))
        }
    }

    /// One step: nothing on a halted machine; otherwise one instruction,
    /// after which the pointer moves on by one unless the instruction
    /// jumped. On a fault nothing has changed.
    pub fn step(&mut self) -> (res: Result<(), Fault>)
        ensures
            step_spec(old(self)@) matches Ok(t) ==> res is Ok && final(self)@ == t,
            step_spec(old(self)@) matches Err(e) ==> res == Err::<(), Fault>(e) && final(self)@
                == old(self)@,
    {
        if self.instr_ptr == 0 {
            return Ok(());
        }
        match self.read() {
            Err(e) => Err(e),
            Ok(jumped) => {
                if !jumped {
                    self.instr_ptr = self.instr_ptr + 1;
                }
                Ok(())
            },
        }
    }

    /// Steps until the machine halts, faults, or has taken `limit` steps.
    /// `Ok(true)` says that it halted, `Ok(false)` that the steps ran out,
    /// `Err` which fault stopped it; the machine is then as it was before
    /// the instruction that faulted.
    pub fn run(&mut self, limit: u64) -> (res: Result<bool, Fault>)
        ensures
            final(self)@ == run_spec(old(self)@, limit as nat).0,
            run_spec(old(self)@, limit as nat).1 matches Some(e) ==> res == Err::<bool, Fault>(e),
            run_spec(old(self)@, limit as nat).1 is None ==> res == Ok::<bool, Fault>(
                final(self)@.halted(),
            ),
    {
        let mut left: u64 = limit;
        while left > 0 && self.instr_ptr != 0
            invariant
                run_spec(self@, left as nat) == run_spec(old(self)@, limit as nat),
            decreases left,
        {
            match self.step() {
                Err(e) => {
                    return Err(e);
                },
                Ok(()) => {
                    left = left - 1;
                },
            }
        }
        Ok(self.instr_ptr == 0)
    }

    /// The memory cells that are not zero, in order, each as its number
    /// and its word: what a dump of the machine lists.
    pub fn nonzero_cells(&self) -> (cells: Vec<(u64, u64)>)
        ensures
            cells@ == nonzero_cells_spec(self@.mem, 100),
    {
        let mut cells: Vec<(u64, u64)> = Vec::new();
        let mut k: u64 = 0;
        while k < 100
            invariant
                k <= 100,
                cells@ == nonzero_cells_spec(self@.mem, k as nat),
            decreases 100 - k,
        {
            let v = self.cell(k);
            if v != 0 {
                cells.push((k, v));
            }
            k = k + 1;
        }
        cells
    }
}

} // verus!
