//! Properties of the instruction set that hold of every machine state.
use vstd::prelude::*;

use crate::decode::Instruction;
use crate::model::{
    addr, blank, collides, draw_spec, drawn, exec_spec, fetched, pc_after, pc_before, sprite_bit, CpuError, Effect,
    MachineState, COLS, FLAG, MEM_SIZE, ROWS, SCREEN_CELLS, STACK_DEPTH,
};

verus! {

/// Adding two registers leaves their sum modulo 256 in the destination and
/// sets the flag register to 1 exactly when the sum exceeds 255, else to 0.
pub proof fn law_add_carry(s: MachineState, x: u8, y: u8, keys: Seq<bool>, rnd: u8)
    requires
        s.wf(),
        x < 16,
        y < 16,
        x != FLAG,
    ensures
        (exec_spec(s, Instruction::AddReg { x, y }, keys, rnd) matches Ok((t, e)) && ({
            let a = s.reg(x);
            let b = s.reg(y);
            &&& t.v[FLAG as int] == 1 <==> a + b > 255
            &&& t.v[FLAG as int] == 0 || t.v[FLAG as int] == 1
            &&& t.v[x as int] == (a + b) % 256
        })),
{
}

/// Subtracting `Vy` from `Vx` leaves the difference modulo 256 in `Vx` and
/// sets the flag register to 1 exactly when `Vx >= Vy`, else to 0.
pub proof fn law_sub_borrow(s: MachineState, x: u8, y: u8, keys: Seq<bool>, rnd: u8)
    requires
        s.wf(),
        x < 16,
        y < 16,
        x != FLAG,
    ensures
        (exec_spec(s, Instruction::Sub { x, y }, keys, rnd) matches Ok((t, e)) && ({
            let a = s.reg(x);
            let b = s.reg(y);
            &&& t.v[FLAG as int] == 1 <==> a >= b
            &&& t.v[FLAG as int] == 0 || t.v[FLAG as int] == 1
            &&& t.v[x as int] == (a - b) % 256
        })),
{
}

/// A right shift puts the low bit of `v` in the flag register and `v >> 1`
/// in the destination.
pub proof fn law_shift_right(s: MachineState, x: u8, y: u8, keys: Seq<bool>, rnd: u8)
    requires
        s.wf(),
        x < 16,
        x != FLAG,
    ensures
        (exec_spec(s, Instruction::Shr { x, y }, keys, rnd) matches Ok((t, e)) && ({
            let v = s.v[x as int];
            &&& t.v[FLAG as int] == v & 1
            &&& t.v[x as int] == v >> 1
        })),
{
    let v = s.v[x as int];
    assert(v & 1 == v % 2) by (bit_vector);
    assert(v >> 1 == v / 2) by (bit_vector);
}

/// A left shift puts the high bit of `v` in the flag register and `v << 1`,
/// truncated to eight bits, in the destination.
pub proof fn law_shift_left(s: MachineState, x: u8, y: u8, keys: Seq<bool>, rnd: u8)
    requires
        s.wf(),
        x < 16,
        x != FLAG,
    ensures
        (exec_spec(s, Instruction::Shl { x, y }, keys, rnd) matches Ok((t, e)) && ({
            let v = s.v[x as int];
            &&& t.v[FLAG as int] == (v >> 7) & 1
            &&& t.v[x as int] == v << 1
        })),
{
    let v = s.v[x as int];
    assert((v >> 7) & 1 == v / 128) by (bit_vector);
    assert(v << 1 == ((v as u16 * 2) % 256) as u8) by (bit_vector);
}

/// A call, once fetched, followed by the fetch and execution of a return
/// resumes at the instruction after the call, with the stack and everything
/// else as they were once the call had been fetched.
pub proof fn law_call_return(s: MachineState, nnn: u16, keys: Seq<bool>, rnd: u8)
    requires
        s.wf(),
        nnn < 0x1000,
        s.stack.len() < STACK_DEPTH,
    ensures
        (exec_spec(s, Instruction::Call { nnn }, keys, rnd) matches Ok((t, e)) && t.wf()
            && exec_spec(fetched(t), Instruction::Ret, keys, rnd) == Ok::<(MachineState, Effect), CpuError>(
            (s, Effect::Continue),
        )),
{
    lemma_return_after_call(s, nnn, pc_after(nnn, 1), keys, rnd);
}

/// Whatever the program counter has become since, a return right after a
/// call comes back to the state in which the call had been fetched.
proof fn lemma_return_after_call(s: MachineState, nnn: u16, p: u16, keys: Seq<bool>, rnd: u8)
    requires
        s.wf(),
        nnn < 0x1000,
        p < 0x1000,
        s.stack.len() < STACK_DEPTH,
    ensures
        (exec_spec(s, Instruction::Call { nnn }, keys, rnd) matches Ok((t, e)) && t.wf()
            && exec_spec(t.at(p), Instruction::Ret, keys, rnd) == Ok::<(MachineState, Effect), CpuError>(
            (s, Effect::Continue),
        )),
{
    let t = MachineState { pc: nnn, stack: s.stack.push(s.pc), ..s };
    assert(t.at(p).stack.drop_last() =~= s.stack);
    let back = MachineState { pc: t.at(p).stack.last(), stack: t.at(p).stack.drop_last(), ..t.at(p) };
    assert(back == s);
}

/// A call succeeds exactly while the stack holds fewer than `STACK_DEPTH`
/// return addresses, and then adds one; on a full stack it fails with a
/// stack overflow that names the call's address, and changes nothing.
pub proof fn law_call_depth(s: MachineState, nnn: u16, keys: Seq<bool>, rnd: u8)
    requires
        s.wf(),
        nnn < 0x1000,
    ensures
        s.stack.len() < STACK_DEPTH ==> (exec_spec(s, Instruction::Call { nnn }, keys, rnd) matches Ok((t, e))
            && t.wf() && t.stack.len() == s.stack.len() + 1),
        s.stack.len() == STACK_DEPTH ==> exec_spec(s, Instruction::Call { nnn }, keys, rnd) == Err::<
            (MachineState, Effect),
            CpuError,
        >(CpuError::StackOverflow { pc: pc_before(s.pc) }),
{
}

/// The state after fetching and executing a call to each of `targets` in
/// turn, or `None` once one of them fails.
pub open spec fn after_calls(s: MachineState, targets: Seq<u16>) -> Option<MachineState>
    decreases targets.len(),
{
    if targets.len() == 0 {
        Some(s)
    } else {
        match after_calls(s, targets.drop_last()) {
            Some(x) => match exec_spec(fetched(x), Instruction::Call { nnn: targets.last() }, Seq::empty(), 0) {
                Ok((t, e)) => Some(t),
                Err(err) => None,
            },
            None => None,
        }
    }
}

/// The state after fetching and executing `k` returns in turn, or `None`
/// once one of them fails.
pub open spec fn after_returns(s: MachineState, k: nat) -> Option<MachineState>
    decreases k,
{
    if k == 0 {
        Some(s)
    } else {
        match after_returns(s, (k - 1) as nat) {
            Some(x) => match exec_spec(fetched(x), Instruction::Ret, Seq::empty(), 0) {
                Ok((t, e)) => Some(t),
                Err(err) => None,
            },
            None => None,
        }
    }
}

/// Calls succeed while they fit on the stack, each adding one entry.
proof fn lemma_calls_fit(s: MachineState, targets: Seq<u16>)
    requires
        s.wf(),
        s.stack.len() + targets.len() <= STACK_DEPTH,
        forall|j: int| 0 <= j < targets.len() ==> targets[j] < 0x1000,
    ensures
        (after_calls(s, targets) matches Some(x) && x.wf() && x.stack.len() == s.stack.len() + targets.len()),
    decreases targets.len(),
{
    if targets.len() > 0 {
        lemma_calls_fit(s, targets.drop_last());
    }
}

/// Nested calls unwind in reverse order: with `k` calls made in a row, the
/// `m`-th of `k` returns that follow succeeds and leaves the machine as it
/// was right after the `(k + 1 - m)`-th call had been fetched, so the
/// program counter is the address after that call.
proof fn lemma_unwind(s: MachineState, targets: Seq<u16>, m: nat)
    requires
        s.wf(),
        s.stack.len() + targets.len() <= STACK_DEPTH,
        forall|j: int| 0 <= j < targets.len() ==> targets[j] < 0x1000,
        1 <= m <= targets.len(),
    ensures
        after_returns(after_calls(s, targets)->Some_0, m) == Some(
            fetched(after_calls(s, targets.take(targets.len() - m))->Some_0),
        ),
    decreases m,
{
    let k = targets.len() as int;
    let c = after_calls(s, targets)->Some_0;
    lemma_calls_fit(s, targets);
    let j = k - m as int;
    let pre = targets.take(j);
    let post = targets.take(j + 1);
    lemma_calls_fit(s, pre);
    lemma_calls_fit(s, post);
    assert(post.drop_last() =~= pre);
    let y = after_calls(s, pre)->Some_0;
    let z = after_calls(s, post)->Some_0;
    assert(fetched(y).wf() && fetched(y).stack.len() < STACK_DEPTH);
    if m == 1 {
        assert(targets.take(k) =~= targets);
        lemma_return_after_call(fetched(y), targets[j], pc_after(z.pc, 1), Seq::empty(), 0);
        assert(fetched(z) == z.at(pc_after(z.pc, 1)));
    } else {
        lemma_unwind(s, targets, (m - 1) as nat);
        let fz = fetched(z);
        lemma_return_after_call(fetched(y), targets[j], pc_after(fz.pc, 1), Seq::empty(), 0);
        assert(fetched(fz) == z.at(pc_after(fz.pc, 1)));
    }
}

/// Up to `STACK_DEPTH` nested calls followed by as many returns unwind in
/// reverse order: each return succeeds and resumes after the matching call,
/// and after the last one the machine is as it was once the first call had
/// been fetched, with the stack as before the calls.
pub proof fn law_nested_calls(s: MachineState, targets: Seq<u16>)
    requires
        s.wf(),
        s.stack.len() + targets.len() <= STACK_DEPTH,
        forall|j: int| 0 <= j < targets.len() ==> targets[j] < 0x1000,
    ensures
        after_calls(s, targets) is Some,
        forall|m: nat|
            1 <= m <= targets.len() ==> #[trigger] after_returns(after_calls(s, targets)->Some_0, m) == Some(
                fetched(after_calls(s, targets.take(targets.len() - m))->Some_0),
            ),
        targets.len() > 0 ==> after_returns(after_calls(s, targets)->Some_0, targets.len()) == Some(fetched(s)),
{
    lemma_calls_fit(s, targets);
    assert forall|m: nat| 1 <= m <= targets.len() implies #[trigger] after_returns(
        after_calls(s, targets)->Some_0,
        m,
    ) == Some(fetched(after_calls(s, targets.take(targets.len() - m))->Some_0)) by {
        lemma_unwind(s, targets, m);
    }
    if targets.len() > 0 {
        lemma_unwind(s, targets, targets.len());
        assert(targets.take(0) =~= Seq::<u16>::empty());
    }
}

/// The pixels that an eight-pixel row drawn at column `x0` and row `y0`
/// covers.
pub open spec fn in_row_segment(x0: int, y0: int, c: int) -> bool {
    c / (COLS as int) == y0 && (c % (COLS as int) - x0) % (COLS as int) < 8
}

/// Drawing a one-row sprite of byte `0xFF` on a dark display lights exactly
/// the eight pixels it covers and reports no collision; drawing it again at
/// the same place turns them off and reports a collision.
pub proof fn law_draw_twice(s: MachineState, x: u8, y: u8, keys: Seq<bool>, rnd: u8)
    requires
        s.wf(),
        x < 16,
        y < 16,
        x != FLAG,
        y != FLAG,
        s.screen == blank(),
        s.mem[addr(s.i, 0)] == 0xFFu8,
    ensures
        (exec_spec(s, Instruction::Drw { x, y, n: 1 }, keys, rnd) matches Ok((t, e)) && ({
            let x0 = s.reg(x) % (COLS as int);
            let y0 = s.reg(y) % (ROWS as int);
            &&& e == Effect::Redraw
            &&& t.v[FLAG as int] == 0
            &&& forall|c: int| 0 <= c < t.screen.len() ==> (t.screen[c] <==> in_row_segment(x0, y0, c))
            &&& exec_spec(t, Instruction::Drw { x, y, n: 1 }, keys, rnd) matches Ok((u, f))
            &&& u.v[FLAG as int] == 1
            &&& u.screen == blank()
        })),
{
    let x0 = s.reg(x) % (COLS as int);
    let y0 = s.reg(y) % (ROWS as int);
    let t = draw_spec(s, x, y, 1);
    assert(exec_spec(s, Instruction::Drw { x, y, n: 1 }, keys, rnd) == Ok::<(MachineState, Effect), CpuError>((t, Effect::Redraw)));
    lemma_full_row_draws(s.screen, s.mem, s.i, x0, y0);
    assert(t.reg(x) == s.reg(x) && t.reg(y) == s.reg(y));
    let u = draw_spec(t, x, y, 1);
    assert(exec_spec(t, Instruction::Drw { x, y, n: 1 }, keys, rnd) == Ok::<(MachineState, Effect), CpuError>((u, Effect::Redraw)));
}

/// Where the sprite is the single byte `0xFF`, it covers exactly the
/// pixels of `in_row_segment`.
proof fn lemma_full_row(mem: Seq<u8>, i: u16, x0: int, y0: int, c: int)
    requires
        mem.len() == MEM_SIZE,
        mem[addr(i, 0)] == 0xFFu8,
        0 <= x0 < COLS,
        0 <= y0 < ROWS,
        0 <= c < SCREEN_CELLS,
    ensures
        sprite_bit(mem, i, x0, y0, 1, c) == in_row_segment(x0, y0, c),
{
    let d = c / (COLS as int) - y0;
    assert(-(ROWS as int) < d < ROWS);
    assert((d % (ROWS as int) == 0) <==> d == 0);
    let b = (c % (COLS as int) - x0) % (COLS as int);
    if b < 8 {
        assert(forall|s: u8| s < 8 ==> #[trigger] ((0xFFu8 >> s) & 1u8) == 1u8) by (bit_vector);
        assert((0xFFu8 >> ((7 - b) as u8)) & 1u8 == 1u8);
    }
}

/// On a dark display a single `0xFF` row lights exactly its eight pixels
/// without collision; drawn again over that, it collides and leaves the
/// display dark.
proof fn lemma_full_row_draws(screen: Seq<bool>, mem: Seq<u8>, i: u16, x0: int, y0: int)
    requires
        screen == blank(),
        mem.len() == MEM_SIZE,
        mem[addr(i, 0)] == 0xFFu8,
        0 <= x0 < COLS,
        0 <= y0 < ROWS,
    ensures
        !collides(screen, mem, i, x0, y0, 1),
        forall|c: int| 0 <= c < SCREEN_CELLS ==> (drawn(screen, mem, i, x0, y0, 1)[c] <==> in_row_segment(x0, y0, c)),
        collides(drawn(screen, mem, i, x0, y0, 1), mem, i, x0, y0, 1),
        drawn(drawn(screen, mem, i, x0, y0, 1), mem, i, x0, y0, 1) == blank(),
{
    let lit = drawn(screen, mem, i, x0, y0, 1);
    assert forall|c: int| 0 <= c < SCREEN_CELLS implies #[trigger] sprite_bit(mem, i, x0, y0, 1, c)
        == in_row_segment(x0, y0, c) by {
        lemma_full_row(mem, i, x0, y0, c);
    }
    let c0 = y0 * (COLS as int) + x0;
    assert(in_row_segment(x0, y0, c0));
    assert(lit[c0] && sprite_bit(mem, i, x0, y0, 1, c0));
    assert(drawn(lit, mem, i, x0, y0, 1) =~= blank());
}

} // verus!
