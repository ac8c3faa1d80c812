//! The machine as mathematics: its state as a value, and each instruction
//! family as a function from a state and an instruction word to the next
//! state or to the fault that stops the run.
//!
//! Memory has cells 0 to 99 and nothing wraps into it: an instruction that
//! reads or writes a cell at 100 or above faults, and so does a fetch with
//! the pointer there. A division by a zero word faults. An index field
//! that selects none of the six index registers faults. Effective
//! addresses themselves are sums that wrap at 64 bits.

use crate::codec::{address_of, index_of, modifier_of, opcode_of};
use vstd::prelude::*;

verus! {

/// The result of the last comparison.
#[derive(Clone, Copy, PartialEq, Eq, Structural, Debug)]
pub enum Flag {
    Less,
    Equal,
    Greater,
}

/// Why the machine refused an instruction. Each variant but the last carries
/// the raw word of the instruction; the last carries the pointer.
#[derive(Clone, Copy, PartialEq, Eq, Structural, Debug)]
pub enum Fault {
    /// The operation code belongs to no family, or to none of the family
    /// that was asked, or the modifier is none of the operation's.
    UnknownInstruction(u64),
    /// Operation code 40: known, and not built.
    Unimplemented(u64),
    /// The index field selects none of the six index registers.
    BadIndex(u64),
    /// The instruction reads or writes a memory cell at 100 or above.
    AddressOutOfRange(u64),
    /// A division whose divisor, the memory word, is zero.
    DivisionByZero(u64),
    /// The instruction pointer is at 100 or above, where there is no word
    /// to fetch.
    PointerOutOfRange(u64),
}

/// The number of memory cells.
pub open spec fn mem_size() -> int {
    100
}

/// All that the machine holds.
pub struct State {
    pub a: u64,
    pub x: u64,
    /// The six index registers: `i[0]` is I1.
    pub i: Seq<u64>,
    pub j: u64,
    pub flag: Flag,
    pub mem: Seq<u64>,
    /// The instruction pointer.
    pub ip: u64,
}

impl State {
    /// Six index registers and a hundred cells.
    pub open spec fn wf(self) -> bool {
        self.i.len() == 6 && self.mem.len() == mem_size()
    }

    /// The state of a new machine.
    pub open spec fn initial() -> State {
        State {
            a: 0,
            x: 0,
            i: Seq::new(6, |k: int| 0u64),
            j: 0,
            flag: Flag::Equal,
            mem: Seq::new(100, |k: int| 0u64),
            ip: 1,
        }
    }

    /// The machine has stopped: the pointer is at cell 0.
    pub open spec fn halted(self) -> bool {
        self.ip == 0
    }

    /// Register number `r`: 0 is A, 1 to 6 are I1 to I6, 7 is X, 8 is J.
    pub open spec fn reg(self, r: int) -> u64 {
        if r == 0 {
            self.a
        } else if 1 <= r <= 6 {
            self.i[r - 1]
        } else if r == 7 {
            self.x
        } else {
            self.j
        }
    }

    /// The state with `v` in register number `r`, numbered as in `reg`.
    pub open spec fn with_reg(self, r: int, v: u64) -> State {
        if r == 0 {
            State { a: v, ..self }
        } else if 1 <= r <= 6 {
            State { i: self.i.update(r - 1, v), ..self }
        } else if r == 7 {
            State { x: v, ..self }
        } else {
            State { j: v, ..self }
        }
    }

    /// The state with `v` in memory cell `k`.
    pub open spec fn with_mem(self, k: int, v: u64) -> State {
        State { mem: self.mem.update(k, v), ..self }
    }
}

/// The effective address of `w` for every family but the arithmetic one:
/// the address field, plus (wrapping) the index register that a nonzero
/// index field selects, 1 for I1. `None` where the index field is above 6.
pub open spec fn effective(s: State, w: u64) -> Option<u64> {
    let ix = index_of(w);
    if ix == 0 {
        Some(address_of(w))
    } else if ix <= 6 {
        Some(address_of(w).wrapping_add(s.i[ix - 1]))
    } else {
        None
    }
}

/// The effective address of `w` for the arithmetic family, which always
/// indexes and counts from zero: index field 0 selects I1, 5 selects I6.
/// `None` where the index field is above 5.
pub open spec fn arith_effective(s: State, w: u64) -> Option<u64> {
    let ix = index_of(w);
    if ix <= 5 {
        Some(address_of(w).wrapping_add(s.i[ix as int]))
    } else {
        None
    }
}

/// How an unsigned `l` stands to an unsigned `r`.
pub open spec fn order(l: u64, r: u64) -> Flag {
    if l < r {
        Flag::Less
    } else if l == r {
        Flag::Equal
    } else {
        Flag::Greater
    }
}

/// Load: operation codes 8 to 15 copy the cell at the effective address
/// into A, I1 to I6, X.
pub open spec fn load_spec(s: State, w: u64) -> Result<State, Fault> {
    let op = opcode_of(w);
    match effective(s, w) {
        None => Err(Fault::BadIndex(w)),
        Some(addr) => if !(8 <= op <= 15) {
            Err(Fault::UnknownInstruction(w))
        } else if addr >= 100 {
            Err(Fault::AddressOutOfRange(w))
        } else {
            Ok(s.with_reg(op - 8, s.mem[addr as int]))
        },
    }
}

/// Store: operation codes 24 to 32 copy A, I1 to I6, X, J into the cell at
/// the effective address; 33 writes zero there.
pub open spec fn store_spec(s: State, w: u64) -> Result<State, Fault> {
    let op = opcode_of(w);
    match effective(s, w) {
        None => Err(Fault::BadIndex(w)),
        Some(addr) => if !(24 <= op <= 33) {
            Err(Fault::UnknownInstruction(w))
        } else if addr >= 100 {
            Err(Fault::AddressOutOfRange(w))
        } else if op == 33 {
            Ok(s.with_mem(addr as int, 0))
        } else {
            Ok(s.with_mem(addr as int, s.reg(op - 24)))
        },
    }
}

/// Arithmetic: operation codes 1 to 4 add, subtract, multiply, divide A by
/// the cell at the arithmetic family's effective address, wrapping, and
/// leave the result in A. Division by a zero word is a fault.
pub open spec fn arith_spec(s: State, w: u64) -> Result<State, Fault> {
    let op = opcode_of(w);
    match arith_effective(s, w) {
        None => Err(Fault::BadIndex(w)),
        Some(addr) => if !(1 <= op <= 4) {
            Err(Fault::UnknownInstruction(w))
        } else if addr >= 100 {
            Err(Fault::AddressOutOfRange(w))
        } else {
            let m = s.mem[addr as int];
            if op == 1 {
                Ok(State { a: s.a.wrapping_add(m), ..s })
            } else if op == 2 {
                Ok(State { a: s.a.wrapping_sub(m), ..s })
            } else if op == 3 {
                Ok(State { a: s.a.wrapping_mul(m), ..s })
            } else if m == 0 {
                Err(Fault::DivisionByZero(w))
            } else {
                Ok(State { a: s.a / m, ..s })
            }
        },
    }
}

/// Increment, decrement, enter: operation codes 48 to 55 select A, I1 to
/// I6, X; modifier 0 adds the effective address itself to it, 1 subtracts
/// it, both wrapping, and 2 puts it there.
pub open spec fn inc_dec_ent_spec(s: State, w: u64) -> Result<State, Fault> {
    let op = opcode_of(w);
    let m = modifier_of(w);
    match effective(s, w) {
        None => Err(Fault::BadIndex(w)),
        Some(addr) => if !(48 <= op <= 55) || m > 2 {
            Err(Fault::UnknownInstruction(w))
        } else if m == 0 {
            Ok(s.with_reg(op - 48, s.reg(op - 48).wrapping_add(addr)))
        } else if m == 1 {
            Ok(s.with_reg(op - 48, s.reg(op - 48).wrapping_sub(addr)))
        } else {
            Ok(s.with_reg(op - 48, addr))
        },
    }
}

/// Compare: operation codes 56 to 63 set the flag to how A, I1 to I6, X
/// stands to the cell at the effective address, both unsigned.
pub open spec fn compare_spec(s: State, w: u64) -> Result<State, Fault> {
    let op = opcode_of(w);
    match effective(s, w) {
        None => Err(Fault::BadIndex(w)),
        Some(addr) => if !(56 <= op <= 63) {
            Err(Fault::UnknownInstruction(w))
        } else if addr >= 100 {
            Err(Fault::AddressOutOfRange(w))
        } else {
            Ok(State { flag: order(s.reg(op - 56), s.mem[addr as int]), ..s })
        },
    }
}

/// Whether modifier `m` is one of the jump's.
pub open spec fn jump_modifier(m: u8) -> bool {
    m == 0 || m == 1 || 4 <= m <= 9
}

/// Whether a jump with modifier `m`, one of the jump's, is taken under `flag`.
pub open spec fn jump_taken(m: u8, flag: Flag) -> bool {
    if m == 0 || m == 1 {
        true
    } else if m == 4 {
        flag == Flag::Less
    } else if m == 5 {
        flag == Flag::Equal
    } else if m == 6 {
        flag == Flag::Greater
    } else if m == 7 {
        flag != Flag::Less
    } else if m == 8 {
        flag != Flag::Equal
    } else {
        flag != Flag::Greater
    }
}

/// Jump: operation code 39. A jump that is taken puts the effective address
/// in the pointer and, unless the modifier is 1, the address after the jump
/// instruction in J. One that is not taken changes nothing. The boolean
/// says whether the jump was taken.
pub open spec fn jump_spec(s: State, w: u64) -> Result<(State, bool), Fault> {
    let op = opcode_of(w);
    let m = modifier_of(w);
    match effective(s, w) {
        None => Err(Fault::BadIndex(w)),
        Some(addr) => if op == 40 {
            Err(Fault::Unimplemented(w))
        } else if op != 39 || !jump_modifier(m) {
            Err(Fault::UnknownInstruction(w))
        } else if !jump_taken(m, s.flag) {
            Ok((s, false))
        } else if m == 1 {
            Ok((State { ip: addr, ..s }, true))
        } else {
            Ok((State { ip: addr, j: s.ip.wrapping_add(1), ..s }, true))
        },
    }
}

/// A handler's result as the dispatcher's: only a jump redirects.
pub open spec fn no_jump(r: Result<State, Fault>) -> Result<(State, bool), Fault> {
    match r {
        Ok(t) => Ok((t, false)),
        Err(e) => Err(e),
    }
}

/// What instruction `w` does to `s`: the family is chosen by the operation
/// code alone, and a code in no family is a fault. The boolean says whether
/// the instruction redirected the pointer.
pub open spec fn execute_spec(s: State, w: u64) -> Result<(State, bool), Fault> {
    let op = opcode_of(w);
    if 1 <= op <= 4 {
        no_jump(arith_spec(s, w))
    } else if 8 <= op <= 15 {
        no_jump(load_spec(s, w))
    } else if 24 <= op <= 33 {
        no_jump(store_spec(s, w))
    } else if 39 <= op <= 47 {
        jump_spec(s, w)
    } else if 48 <= op <= 55 {
        no_jump(inc_dec_ent_spec(s, w))
    } else if 56 <= op <= 63 {
        no_jump(compare_spec(s, w))
    } else {
        Err(Fault::UnknownInstruction(w))
    }
}

/// Fetch and execute: the word under the pointer is the instruction. A
/// pointer at 100 or above has nothing under it.
pub open spec fn read_spec(s: State) -> Result<(State, bool), Fault> {
    if s.ip >= 100 {
        Err(Fault::PointerOutOfRange(s.ip))
    } else {
        execute_spec(s, s.mem[s.ip as int])
    }
}

/// One step. A halted machine stays as it is. Otherwise the instruction
/// under the pointer is executed; where it did not jump, the pointer moves
/// on by one.
pub open spec fn step_spec(s: State) -> Result<State, Fault> {
    if s.halted() {
        Ok(s)
    } else {
        match read_spec(s) {
            Err(e) => Err(e),
            Ok((t, jumped)) => if jumped {
                Ok(t)
            } else {
                Ok(State { ip: (t.ip + 1) as u64, ..t })
            },
        }
    }
}

/// At most `n` steps from `s`, stopping early where the machine halts or
/// faults: the state that was reached, and the fault if one stopped it.
pub open spec fn run_spec(s: State, n: nat) -> (State, Option<Fault>)
    decreases n,
{
    if n == 0 || s.halted() {
        (s, None)
    } else {
        match step_spec(s) {
            Err(e) => (s, Some(e)),
            Ok(t) => run_spec(t, (n - 1) as nat),
        }
    }
}

/// The cells among the first `n` of `mem` that are not zero, in order, each
/// with its number.
pub open spec fn nonzero_cells_spec(mem: Seq<u64>, n: nat) -> Seq<(u64, u64)>
    decreases n,
{
    if n == 0 {
        Seq::empty()
    } else {
        let before = nonzero_cells_spec(mem, (n - 1) as nat);
        if mem[n - 1] != 0 {
            before.push(((n - 1) as u64, mem[n - 1]))
        } else {
            before
        }
    }
}

} // verus!
