//! What holds of the machine in every state, proved from the model.

use crate::codec::{address_of, encode, index_of, modifier_of, opcode_of};
use crate::model::{
    effective, execute_spec, inc_dec_ent_spec, jump_spec, jump_taken, load_spec,
    nonzero_cells_spec, read_spec, run_spec, step_spec, store_spec, Fault, State,
};
use vstd::arithmetic::div_mod::lemma_fundamental_div_mod_converse;
use vstd::prelude::*;

verus! {

/// Taking a word apart and putting the four fields together again, by the
/// encoding `address * 2^24 + index * 2^16 + modifier * 2^8 + opcode`,
/// gives the word back.
pub proof fn lemma_fields_round_trip(w: u64)
    ensures
        encode(
            address_of(w) as int,
            index_of(w) as int,
            modifier_of(w) as int,
            opcode_of(w) as int,
        ) == w,
{
}

/// A word that was put together from four fields in range decodes to
/// those fields.
pub proof fn lemma_decode_encoded(w: u64, address: int, index: int, modifier: int, opcode: int)
    requires
        0 <= address < 0x100_0000_0000,
        0 <= index < 256,
        0 <= modifier < 256,
        0 <= opcode < 256,
        w == encode(address, index, modifier, opcode),
    ensures
        address_of(w) == address,
        index_of(w) == index,
        modifier_of(w) == modifier,
        opcode_of(w) == opcode,
{
    let w1 = address * 65536 + index * 256 + modifier;
    let w2 = address * 256 + index;
    lemma_fundamental_div_mod_converse(w as int, 256, w1, opcode);
    lemma_fundamental_div_mod_converse(w1, 256, w2, modifier);
    lemma_fundamental_div_mod_converse(w as int, 65536, w2, modifier * 256 + opcode);
    lemma_fundamental_div_mod_converse(w2, 256, address, index);
    lemma_fundamental_div_mod_converse(
        w as int,
        16777216,
        address,
        index * 65536 + modifier * 256 + opcode,
    );
}

/// Every instruction that succeeds leaves six index registers and a
/// hundred cells.
pub proof fn lemma_execute_keeps_shape(s: State, w: u64)
    requires
        s.wf(),
    ensures
        execute_spec(s, w) matches Ok(t) ==> t.0.wf(),
{
}

/// A step that succeeds leaves six index registers and a hundred cells.
pub proof fn lemma_step_keeps_shape(s: State)
    requires
        s.wf(),
    ensures
        step_spec(s) matches Ok(t) ==> t.wf(),
{
    lemma_execute_keeps_shape(s, s.mem[s.ip as int]);
}

/// Loading a cell into a register and then storing that register back to
/// the same cell leaves memory as it was. `load` and `store` are the two
/// instructions; they name the same register (operation codes 8 + r and
/// 24 + r) and both address cell `m`.
pub proof fn lemma_load_then_store(s: State, load: u64, store: u64, m: u64)
    requires
        s.wf(),
        opcode_of(store) - 24 == opcode_of(load) - 8,
        load_spec(s, load) is Ok,
        effective(s, load) == Some(m),
        effective(load_spec(s, load)->Ok_0, store) == Some(m),
    ensures
        store_spec(load_spec(s, load)->Ok_0, store) matches Ok(u) && u.mem == s.mem,
{
    let t = load_spec(s, load)->Ok_0;
    let u = store_spec(t, store)->Ok_0;
    assert(u.mem =~= s.mem);
}

/// Enter (modifier 2) puts the effective address in the destination
/// whatever the destination held: from two states in which the
/// instruction has the same effective address, the destination ends up
/// the same, namely that address.
pub proof fn lemma_enter_ignores_destination(s1: State, s2: State, w: u64, v: u64)
    requires
        s1.wf(),
        s2.wf(),
        48 <= opcode_of(w) <= 55,
        modifier_of(w) == 2,
        effective(s1, w) == Some(v),
        effective(s2, w) == Some(v),
    ensures
        inc_dec_ent_spec(s1, w) == Ok::<State, Fault>(s1.with_reg(opcode_of(w) - 48, v)),
        inc_dec_ent_spec(s2, w) == Ok::<State, Fault>(s2.with_reg(opcode_of(w) - 48, v)),
        inc_dec_ent_spec(s1, w)->Ok_0.reg(opcode_of(w) - 48) == v,
        inc_dec_ent_spec(s2, w)->Ok_0.reg(opcode_of(w) - 48) == v,
{
}

/// A jump with modifier 1 goes to the effective address and leaves J as
/// it was; one with modifier 0 goes there too and leaves in J the address
/// after the jump instruction.
pub proof fn lemma_jump_return_address(s: State, w: u64, target: u64)
    requires
        opcode_of(w) == 39,
        modifier_of(w) == 0 || modifier_of(w) == 1,
        effective(s, w) == Some(target),
    ensures
        jump_spec(s, w) matches Ok(t) && t.1 && t.0.ip == target && t.0 == (State {
            ip: target,
            j: t.0.j,
            ..s
        }),
        modifier_of(w) == 1 ==> jump_spec(s, w)->Ok_0.0.j == s.j,
        modifier_of(w) == 0 ==> jump_spec(s, w)->Ok_0.0.j == s.ip.wrapping_add(1),
        modifier_of(w) == 0 && s.ip < u64::MAX ==> jump_spec(s, w)->Ok_0.0.j == s.ip + 1,
{
}

/// A conditional jump whose condition does not hold changes nothing, and
/// the step that executes it moves the pointer on by one.
pub proof fn lemma_jump_not_taken(s: State)
    requires
        0 < s.ip < 100,
        opcode_of(s.mem[s.ip as int]) == 39,
        4 <= modifier_of(s.mem[s.ip as int]) <= 9,
        effective(s, s.mem[s.ip as int]) is Some,
        !jump_taken(modifier_of(s.mem[s.ip as int]), s.flag),
    ensures
        read_spec(s) == Ok::<(State, bool), Fault>((s, false)),
        step_spec(s) == Ok::<State, Fault>(State { ip: (s.ip + 1) as u64, ..s }),
{
}

/// A machine whose pointer is at cell 0 has halted: a step and a run of
/// any length leave it as it is and report no fault, whatever cell 0
/// holds.
pub proof fn lemma_halted_stays(s: State, n: nat)
    requires
        s.ip == 0,
    ensures
        step_spec(s) == Ok::<State, Fault>(s),
        run_spec(s, n) == (s, None::<Fault>),
{
}

/// A run may be taken in two parts: where the first `n` steps end without
/// a fault, `n + m` steps end where `m` more steps from there end.
pub proof fn lemma_run_in_parts(s: State, n: nat, m: nat)
    requires
        run_spec(s, n).1 is None,
    ensures
        run_spec(s, n + m) == run_spec(run_spec(s, n).0, m),
    decreases n,
{
    if n == 0 || s.halted() {
        if s.halted() {
            lemma_halted_stays(s, m);
            lemma_halted_stays(s, n + m);
        }
    } else {
        match step_spec(s) {
            Err(e) => {},
            Ok(t) => {
                lemma_run_in_parts(t, (n - 1) as nat, m);
            },
        }
    }
}

/// The list of nonzero cells holds each cell with its own word, none of
/// them zero, in rising order of the cells, and leaves out no cell that
/// is not zero.
pub proof fn lemma_nonzero_cells(mem: Seq<u64>, n: nat)
    requires
        n <= mem.len(),
        n <= u64::MAX,
    ensures
        forall|p: int|
            0 <= p < nonzero_cells_spec(mem, n).len() ==> {
                let c = #[trigger] nonzero_cells_spec(mem, n)[p];
                c.0 < n && c.1 == mem[c.0 as int] && c.1 != 0
            },
        forall|p: int, q: int|
            0 <= p < q < nonzero_cells_spec(mem, n).len() ==> (#[trigger] nonzero_cells_spec(
                mem,
                n,
            )[p]).0 < (#[trigger] nonzero_cells_spec(mem, n)[q]).0,
        forall|k: int|
            0 <= k < n && #[trigger] mem[k] != 0 ==> nonzero_cells_spec(mem, n).contains(
                (k as u64, mem[k]),
            ),
    decreases n,
{
    if n > 0 {
        let before = nonzero_cells_spec(mem, (n - 1) as nat);
        let all = nonzero_cells_spec(mem, n);
        lemma_nonzero_cells(mem, (n - 1) as nat);
        assert forall|k: int| 0 <= k < n && #[trigger] mem[k] != 0 implies all.contains(
            (k as u64, mem[k]),
        ) by {
            if k < n - 1 {
                let p = choose|p: int| 0 <= p < before.len() && before[p] == (k as u64, mem[k]);
                assert(all[p] == (k as u64, mem[k]));
            } else {
                assert(all[all.len() - 1] == (k as u64, mem[k]));
            }
        }
    }
}

} // verus!
