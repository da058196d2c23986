//! The mathematical model of the machine: its state, and what one
//! instruction does to it.
use vstd::prelude::*;

use crate::decode::{decode_spec, Instruction};
use crate::font::{font_glyphs, FONT_BYTES};

verus! {

/// Bytes of addressable memory.
pub const MEM_SIZE: usize = 0x1000;

/// Address at which programs are loaded and execution starts.
pub const PROGRAM_START: u16 = 0x200;

/// Largest program that fits between `PROGRAM_START` and the end of memory.
pub const MAX_PROGRAM_LEN: usize = 0xE00;

/// Number of general-purpose registers.
pub const NUM_REGS: usize = 16;

/// Capacity of the return-address stack.
pub const STACK_DEPTH: usize = 16;

/// Number of input keys.
pub const NUM_KEYS: usize = 16;

/// Display width in pixels.
pub const COLS: usize = 64;

/// Display height in pixels.
pub const ROWS: usize = 32;

/// Number of pixels of the display.
pub const SCREEN_CELLS: usize = 2048;

/// The register that arithmetic, shift and draw instructions report through.
pub const FLAG: u8 = 0xF;

/// Width of one instruction in bytes.
pub const INSTR_SIZE: u16 = 2;

/// What the caller has to know after one instruction.
#[derive(Clone, Copy, Debug, PartialEq, Eq, Structural)]
pub enum Effect {
    /// Nothing visible changed.
    Continue,
    /// The display changed and should be presented again.
    Redraw,
    /// A key wait is pending: the same instruction runs again next cycle.
    AwaitingKey,
}

/// The failures of loading a program and of executing an instruction.
#[derive(Clone, Copy, Debug, PartialEq, Eq, Structural)]
pub enum CpuError {
    /// The word at `pc` matches no instruction form.
    UnknownOpcode { pc: u16, opcode: u16 },
    /// A call at `pc` found the return-address stack full.
    StackOverflow { pc: u16 },
    /// A return at `pc` found the return-address stack empty.
    StackUnderflow { pc: u16 },
    /// A program of `len` bytes does not fit in memory.
    ProgramTooLarge { len: usize },
}

/// The whole state of the machine, as mathematical values.
///
/// `stack` holds the live return addresses, the most recent last.
/// `screen` holds one entry per pixel, row after row.
pub struct MachineState {
    pub v: Seq<u8>,
    pub i: u16,
    pub pc: u16,
    pub stack: Seq<u16>,
    pub delay: u8,
    pub sound: u8,
    pub mem: Seq<u8>,
    pub screen: Seq<bool>,
}

impl MachineState {
    /// The shape every reachable state has.
    pub open spec fn wf(self) -> bool {
        &&& self.v.len() == NUM_REGS
        &&& self.stack.len() <= STACK_DEPTH
        &&& forall|k: int| 0 <= k < self.stack.len() ==> self.stack[k] < MEM_SIZE
        &&& self.pc < MEM_SIZE
        &&& self.mem.len() == MEM_SIZE
        &&& self.screen.len() == SCREEN_CELLS
    }

    /// The state with register `x` set to `val`.
    pub open spec fn set_v(self, x: int, val: u8) -> MachineState {
        MachineState { v: self.v.update(x, val), ..self }
    }

    /// The state with the program counter set to `pc`.
    pub open spec fn at(self, pc: u16) -> MachineState {
        MachineState { pc, ..self }
    }

    /// The register `x` as a number.
    pub open spec fn reg(self, x: u8) -> int {
        self.v[x as int] as int
    }
}

/// The address `n` instructions after `pc`, wrapping at the end of memory.
pub open spec fn pc_after(pc: u16, n: int) -> u16 {
    ((pc + n * INSTR_SIZE) % (MEM_SIZE as int)) as u16
}

/// The address one instruction before `pc`, wrapping at the start of memory.
pub open spec fn pc_before(pc: u16) -> u16 {
    ((pc + MEM_SIZE - INSTR_SIZE) % (MEM_SIZE as int)) as u16
}

/// The state right after the instruction at the program counter is
/// fetched: the counter has moved on by one instruction.
pub open spec fn fetched(s: MachineState) -> MachineState {
    s.at(pc_after(s.pc, 1))
}

/// The memory address `off` bytes after `base`, wrapping at the end of memory.
pub open spec fn addr(base: u16, off: int) -> int {
    (base + off) % (MEM_SIZE as int)
}

/// `n` reduced to eight bits.
pub open spec fn wrap8(n: int) -> u8 {
    (n % 256) as u8
}

/// The flag value for a condition.
pub open spec fn flag(b: bool) -> u8 {
    if b { 1 } else { 0 }
}

/// The instruction word stored big-endian at `pc`.
pub open spec fn opcode_at(mem: Seq<u8>, pc: u16) -> u16 {
    (mem[pc as int] as int * 256 + mem[addr(pc, 1)] as int) as u16
}

/// The state right after power-on: registers, timers and display cleared,
/// execution at `PROGRAM_START`, the font at the start of memory.
pub open spec fn power_on_state() -> MachineState {
    MachineState {
        v: Seq::new(NUM_REGS as nat, |k: int| 0u8),
        i: 0,
        pc: PROGRAM_START,
        stack: Seq::empty(),
        delay: 0,
        sound: 0,
        mem: Seq::new(MEM_SIZE as nat, |a: int| if a < FONT_BYTES { font_glyphs()[a] } else { 0u8 }),
        screen: blank(),
    }
}

/// Memory with `rom` copied in from `PROGRAM_START`.
pub open spec fn loaded(mem: Seq<u8>, rom: Seq<u8>) -> Seq<u8> {
    Seq::new(
        mem.len(),
        |a: int|
            if PROGRAM_START <= a < PROGRAM_START + rom.len() {
                rom[a - PROGRAM_START]
            } else {
                mem[a]
            },
    )
}

/// The state with `rom` loaded from `PROGRAM_START`.
pub open spec fn with_program(s: MachineState, rom: Seq<u8>) -> MachineState {
    MachineState { mem: loaded(s.mem, rom), ..s }
}

/// A timer after one tick: one less, but never below zero.
pub open spec fn count_down(t: u8) -> u8 {
    if t > 0 { (t - 1) as u8 } else { 0 }
}

/// The state after one timer tick.
pub open spec fn ticked(s: MachineState) -> MachineState {
    MachineState { delay: count_down(s.delay), sound: count_down(s.sound), ..s }
}

/// Whether the sprite of `n` rows read from memory at `i`, drawn with its
/// top-left corner at column `x0` and row `y0`, covers the pixel `c`.
///
/// Rows and columns wrap around the edges of the display; the leftmost pixel
/// of a sprite row is the most significant bit of its byte.
pub open spec fn sprite_bit(mem: Seq<u8>, i: u16, x0: int, y0: int, n: int, c: int) -> bool {
    let k = (c / (COLS as int) - y0) % (ROWS as int);
    let b = (c % (COLS as int) - x0) % (COLS as int);
    k < n && b < 8 && (mem[addr(i, k)] >> ((7 - b) as u8)) & 1u8 == 1u8
}

/// The display after the sprite is combined into it by exclusive or.
pub open spec fn drawn(screen: Seq<bool>, mem: Seq<u8>, i: u16, x0: int, y0: int, n: int) -> Seq<bool> {
    Seq::new(screen.len(), |c: int| screen[c] != sprite_bit(mem, i, x0, y0, n, c))
}

/// Whether drawing the sprite turns some lit pixel off.
pub open spec fn collides(screen: Seq<bool>, mem: Seq<u8>, i: u16, x0: int, y0: int, n: int) -> bool {
    exists|c: int| 0 <= c < screen.len() && screen[c] && #[trigger] sprite_bit(mem, i, x0, y0, n, c)
}

/// The lowest key at or above `k` that is pressed, or `NUM_KEYS` if none is.
pub open spec fn first_pressed(keys: Seq<bool>, k: int) -> int
    decreases NUM_KEYS - k,
{
    if k >= NUM_KEYS {
        NUM_KEYS as int
    } else if keys[k] {
        k
    } else {
        first_pressed(keys, k + 1)
    }
}

/// A display with every pixel off.
pub open spec fn blank() -> Seq<bool> {
    Seq::new(SCREEN_CELLS as nat, |c: int| false)
}

/// Memory after `V0..=Vx` are written to it from `I` on: the address `a`
/// lies `(a - I) mod MEM_SIZE` bytes after `I`.
pub open spec fn stored_regs(s: MachineState, x: u8) -> Seq<u8> {
    Seq::new(
        MEM_SIZE as nat,
        |a: int|
            if (a - s.i) % (MEM_SIZE as int) <= x {
                s.v[(a - s.i) % (MEM_SIZE as int)]
            } else {
                s.mem[a]
            },
    )
}

/// The registers after `V0..=Vx` are read from memory from `I` on.
pub open spec fn loaded_regs(s: MachineState, x: u8) -> Seq<u8> {
    Seq::new(NUM_REGS as nat, |k: int| if k <= x { s.mem[addr(s.i, k)] } else { s.v[k] })
}

/// The state with the display replaced.
pub open spec fn with_screen(s: MachineState, screen: Seq<bool>) -> MachineState {
    MachineState { screen, ..s }
}

/// What an instruction of control transfer does. `exec_spec` hands it only
/// these; any other instruction is left as a no-op here.
pub open spec fn flow_spec(s: MachineState, ins: Instruction, keys: Seq<bool>) -> Result<(MachineState, Effect), CpuError> {
    let skip = s.at(pc_after(s.pc, 1));
    match ins {
        Instruction::Sys { .. } => Ok((s, Effect::Continue)),
        Instruction::Cls => Ok((with_screen(s, blank()), Effect::Redraw)),
        Instruction::Ret => if s.stack.len() == 0 {
            Err(CpuError::StackUnderflow { pc: pc_before(s.pc) })
        } else {
            Ok((MachineState { pc: s.stack.last(), stack: s.stack.drop_last(), ..s }, Effect::Continue))
        },
        Instruction::Jp { nnn } => Ok((s.at(nnn), Effect::Continue)),
        Instruction::Call { nnn } => if s.stack.len() >= STACK_DEPTH {
            Err(CpuError::StackOverflow { pc: pc_before(s.pc) })
        } else {
            Ok((MachineState { pc: nnn, stack: s.stack.push(s.pc), ..s }, Effect::Continue))
        },
        Instruction::SeImm { x, kk } => Ok((if s.reg(x) == kk { skip } else { s }, Effect::Continue)),
        Instruction::SneImm { x, kk } => Ok((if s.reg(x) != kk { skip } else { s }, Effect::Continue)),
        Instruction::SeReg { x, y } => Ok((if s.reg(x) == s.reg(y) { skip } else { s }, Effect::Continue)),
        Instruction::SneReg { x, y } => Ok((if s.reg(x) != s.reg(y) { skip } else { s }, Effect::Continue)),
        Instruction::JpV0 { nnn } => Ok((s.at(((s.reg(0) + nnn) % (MEM_SIZE as int)) as u16), Effect::Continue)),
        Instruction::Skp { x } => Ok((if keys[s.reg(x) % 16] { skip } else { s }, Effect::Continue)),
        Instruction::Sknp { x } => Ok((if !keys[s.reg(x) % 16] { skip } else { s }, Effect::Continue)),
        _ => Ok((s, Effect::Continue)),
    }
}

/// What an instruction that computes into a register does. `exec_spec`
/// hands it only these; any other instruction is left as a no-op here.
pub open spec fn alu_spec(s: MachineState, ins: Instruction, rnd: u8) -> Result<(MachineState, Effect), CpuError> {
    match ins {
        Instruction::LdImm { x, kk } => Ok((s.set_v(x as int, kk), Effect::Continue)),
        Instruction::AddImm { x, kk } => Ok((s.set_v(x as int, wrap8(s.reg(x) + kk)), Effect::Continue)),
        Instruction::LdReg { x, y } => Ok((s.set_v(x as int, s.v[y as int]), Effect::Continue)),
        Instruction::Or { x, y } => Ok((s.set_v(x as int, s.v[x as int] | s.v[y as int]), Effect::Continue)),
        Instruction::And { x, y } => Ok((s.set_v(x as int, s.v[x as int] & s.v[y as int]), Effect::Continue)),
        Instruction::Xor { x, y } => Ok((s.set_v(x as int, s.v[x as int] ^ s.v[y as int]), Effect::Continue)),
        Instruction::AddReg { x, y } => Ok((
            s.set_v(FLAG as int, flag(s.reg(x) + s.reg(y) > 255)).set_v(x as int, wrap8(s.reg(x) + s.reg(y))),
            Effect::Continue,
        )),
        Instruction::Sub { x, y } => Ok((
            s.set_v(FLAG as int, flag(s.reg(x) >= s.reg(y))).set_v(x as int, wrap8(s.reg(x) - s.reg(y))),
            Effect::Continue,
        )),
        Instruction::Subn { x, y } => Ok((
            s.set_v(FLAG as int, flag(s.reg(y) >= s.reg(x))).set_v(x as int, wrap8(s.reg(y) - s.reg(x))),
            Effect::Continue,
        )),
        Instruction::Shr { x, .. } => Ok((
            s.set_v(FLAG as int, (s.reg(x) % 2) as u8).set_v(x as int, (s.reg(x) / 2) as u8),
            Effect::Continue,
        )),
        Instruction::Shl { x, .. } => Ok((
            s.set_v(FLAG as int, (s.reg(x) / 128) as u8).set_v(x as int, wrap8(s.reg(x) * 2)),
            Effect::Continue,
        )),
        Instruction::Rnd { x, kk } => Ok((s.set_v(x as int, rnd & kk), Effect::Continue)),
        _ => Ok((s, Effect::Continue)),
    }
}

/// What an instruction that moves data between registers, timers, memory
/// and the keyboard does. `exec_spec` hands it only these; any other
/// instruction is left as a no-op here.
pub open spec fn data_spec(s: MachineState, ins: Instruction, keys: Seq<bool>) -> Result<(MachineState, Effect), CpuError> {
    match ins {
        Instruction::LdI { nnn } => Ok((MachineState { i: nnn, ..s }, Effect::Continue)),
        Instruction::LdVxDt { x } => Ok((s.set_v(x as int, s.delay), Effect::Continue)),
        Instruction::LdVxKey { x } => {
            let k = first_pressed(keys, 0);
            if k < NUM_KEYS {
                Ok((s.set_v(x as int, k as u8), Effect::Continue))
            } else {
                Ok((s.at(pc_before(s.pc)), Effect::AwaitingKey))
            }
        },
        Instruction::LdDtVx { x } => Ok((MachineState { delay: s.v[x as int], ..s }, Effect::Continue)),
        Instruction::LdStVx { x } => Ok((MachineState { sound: s.v[x as int], ..s }, Effect::Continue)),
        Instruction::AddI { x } => Ok((MachineState { i: ((s.i + s.reg(x)) % 0x10000) as u16, ..s }, Effect::Continue)),
        Instruction::LdFont { x } => Ok((MachineState { i: (5 * (s.reg(x) % 16)) as u16, ..s }, Effect::Continue)),
        Instruction::LdBcd { x } => Ok((
            MachineState {
                mem: s.mem.update(addr(s.i, 0), (s.reg(x) / 100) as u8)
                    .update(addr(s.i, 1), ((s.reg(x) / 10) % 10) as u8)
                    .update(addr(s.i, 2), (s.reg(x) % 10) as u8),
                ..s
            },
            Effect::Continue,
        )),
        Instruction::StoreRegs { x } => Ok((MachineState { mem: stored_regs(s, x), ..s }, Effect::Continue)),
        Instruction::LoadRegs { x } => Ok((MachineState { v: loaded_regs(s, x), ..s }, Effect::Continue)),
        _ => Ok((s, Effect::Continue)),
    }
}

/// What drawing the `n`-row sprite at `I` at `(Vx, Vy)` does: the pixels it
/// covers flip, and the flag register tells whether a lit one went out.
pub open spec fn draw_spec(s: MachineState, x: u8, y: u8, n: u8) -> MachineState {
    let x0 = s.reg(x) % (COLS as int);
    let y0 = s.reg(y) % (ROWS as int);
    with_screen(s, drawn(s.screen, s.mem, s.i, x0, y0, n as int)).set_v(
        FLAG as int,
        flag(collides(s.screen, s.mem, s.i, x0, y0, n as int)),
    )
}

/// What executing `ins` does once it has been fetched, so that `s.pc`
/// already lies one instruction past it: the next state and its effect, or
/// the error that stops it, which names the instruction's own address, with `keys` the pressed keys and `rnd` the
/// random byte that a random instruction would use.
pub open spec fn exec_spec(s: MachineState, ins: Instruction, keys: Seq<bool>, rnd: u8) -> Result<(MachineState, Effect), CpuError> {
    match ins {
        Instruction::Drw { x, y, n } => Ok((draw_spec(s, x, y, n), Effect::Redraw)),
        Instruction::Sys { .. }
            | Instruction::Cls
            | Instruction::Ret
            | Instruction::Jp { .. }
            | Instruction::Call { .. }
            | Instruction::SeImm { .. }
            | Instruction::SneImm { .. }
            | Instruction::SeReg { .. }
            | Instruction::SneReg { .. }
            | Instruction::JpV0 { .. }
            | Instruction::Skp { .. }
            | Instruction::Sknp { .. } => flow_spec(s, ins, keys),
        Instruction::LdImm { .. }
            | Instruction::AddImm { .. }
            | Instruction::LdReg { .. }
            | Instruction::Or { .. }
            | Instruction::And { .. }
            | Instruction::Xor { .. }
            | Instruction::AddReg { .. }
            | Instruction::Sub { .. }
            | Instruction::Subn { .. }
            | Instruction::Shr { .. }
            | Instruction::Shl { .. }
            | Instruction::Rnd { .. } => alu_spec(s, ins, rnd),
        _ => data_spec(s, ins, keys),
    }
}

/// What one fetch-decode-execute cycle does to `s`. On any failure the
/// state stays as it was before the fetch.
pub open spec fn cycle_spec(s: MachineState, keys: Seq<bool>, rnd: u8) -> Result<(MachineState, Effect), CpuError> {
    let opcode = opcode_at(s.mem, s.pc);
    match decode_spec(opcode) {
        None => Err(CpuError::UnknownOpcode { pc: s.pc, opcode }),
        Some(ins) => exec_spec(fetched(s), ins, keys, rnd),
    }
}

/// `r` and `after` are what `res` prescribes for a step from `before`: on
/// success the new state and the effect, on failure the error with the
/// state untouched.
pub open spec fn outcome(
    res: Result<(MachineState, Effect), CpuError>,
    before: MachineState,
    r: Result<Effect, CpuError>,
    after: MachineState,
) -> bool {
    match res {
        Ok((s, e)) => r == Ok::<Effect, CpuError>(e) && after == s,
        Err(err) => r == Err::<Effect, CpuError>(err) && after == before,
    }
}

} // verus!
