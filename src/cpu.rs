//! The machine itself: its state, program loading, and the
//! fetch-decode-execute cycle.
use vstd::prelude::*;

use crate::decode::{decode, Instruction};
use crate::font::{font_glyphs, font_set, FONT_BYTES};
use crate::model::{
    addr, alu_spec, blank, cycle_spec, data_spec, draw_spec, drawn, exec_spec, fetched, first_pressed,
    flow_spec, loaded, loaded_regs, opcode_at, outcome, pc_after, pc_before, power_on_state, sprite_bit,
    stored_regs, ticked, with_program, with_screen, CpuError, Effect, MachineState, COLS, FLAG,
    MAX_PROGRAM_LEN, MEM_SIZE, NUM_KEYS, NUM_REGS, PROGRAM_START, ROWS, SCREEN_CELLS, STACK_DEPTH,
};

verus! {

/// Relies on `rand::random::<u8>`: a byte from the thread-local generator.
/// Nothing is known of its value.
#[verifier::external_body]
fn random_byte() -> u8 {
    rand::random::<u8>()
}

/// A display with every pixel off.
fn blank_screen() -> (r: Vec<bool>)
    ensures
        r@ == blank(),
{
    let mut screen: Vec<bool> = Vec::new();
    while screen.len() < SCREEN_CELLS
        invariant
            screen.len() <= SCREEN_CELLS,
            forall|c: int| 0 <= c < screen.len() ==> !screen@[c],
        decreases SCREEN_CELLS - screen.len(),
    {
        screen.push(false);
    }
    assert(screen@ =~= blank());
    screen
}

/// A CHIP-8 machine: sixteen registers, the index register, the program
/// counter, a return-address stack of sixteen entries, two timers, 4 KiB of
/// memory and a 64 by 32 monochrome display.
///
/// Memory accesses through the index register wrap modulo the memory size;
/// the program counter always stays inside memory.
pub struct CPU {
    v_reg: Vec<u8>,
    i_reg: u16,
    pc: u16,
    stack: Vec<u16>,
    delay_timer: u8,
    sound_timer: u8,
    mem: Vec<u8>,
    screen: Vec<bool>,
}

impl View for CPU {
    type V = MachineState;

    closed spec fn view(&self) -> MachineState {
        MachineState {
            v: self.v_reg@,
            i: self.i_reg,
            pc: self.pc,
            stack: self.stack@,
            delay: self.delay_timer,
            sound: self.sound_timer,
            mem: self.mem@,
            screen: self.screen@,
        }
    }
}

impl CPU {
    /// The machine is in a reachable shape.
    pub open spec fn wf(&self) -> bool {
        self@.wf()
    }

    /// A machine in its power-on state.
    pub fn power_on() -> (r: CPU)
        ensures
            r.wf(),
            r@ == power_on_state(),
    {
        let mut v_reg: Vec<u8> = Vec::new();
        while v_reg.len() < NUM_REGS
            invariant
                v_reg.len() <= NUM_REGS,
                forall|k: int| 0 <= k < v_reg.len() ==> v_reg@[k] == 0u8,
            decreases NUM_REGS - v_reg.len(),
        {
            v_reg.push(0);
        }
        let mut mem = font_set();
        while mem.len() < MEM_SIZE
            invariant
                FONT_BYTES <= mem.len() <= MEM_SIZE,
                forall|a: int| 0 <= a < FONT_BYTES ==> mem@[a] == font_glyphs()[a],
                forall|a: int| FONT_BYTES <= a < mem.len() ==> mem@[a] == 0u8,
            decreases MEM_SIZE - mem.len(),
        {
            mem.push(0);
        }
        let screen = blank_screen();
        assert(v_reg@ =~= power_on_state().v);
        assert(mem@ =~= power_on_state().mem);
        let r = CPU {
            v_reg,
            i_reg: 0,
            pc: PROGRAM_START,
            stack: Vec::new(),
            delay_timer: 0,
            sound_timer: 0,
            mem,
            screen,
        };
        assert(r@.stack =~= power_on_state().stack);
        r
    }

    /// A powered-on machine with `rom` loaded at `PROGRAM_START`.
    pub fn new(rom: &[u8]) -> (r: Result<CPU, CpuError>)
        ensures
            rom@.len() > MAX_PROGRAM_LEN ==> r == Err::<CPU, CpuError>(
                CpuError::ProgramTooLarge { len: rom@.len() as usize },
            ),
            rom@.len() <= MAX_PROGRAM_LEN ==> (r matches Ok(cpu) && cpu.wf()
                && cpu@ == with_program(power_on_state(), rom@)),
    {
        let mut cpu = CPU::power_on();
        match cpu.load_program(rom) {
            Ok(()) => Ok(cpu),
            Err(e) => Err(e),
        }
    }

    /// Puts the machine back in its power-on state.
    pub fn reset(&mut self)
        ensures
            final(self).wf(),
            final(self)@ == power_on_state(),
    {
        *self = CPU::power_on();
    }

    /// Copies `rom` into memory from `PROGRAM_START`. A program longer than
    /// `MAX_PROGRAM_LEN` is refused and leaves the machine unchanged.
    pub fn load_program(&mut self, rom: &[u8]) -> (r: Result<(), CpuError>)
        requires
            old(self).wf(),
        ensures
            final(self).wf(),
            rom@.len() > MAX_PROGRAM_LEN ==> r == Err::<(), CpuError>(
                CpuError::ProgramTooLarge { len: rom@.len() as usize },
            ) && final(self)@ == old(self)@,
            rom@.len() <= MAX_PROGRAM_LEN ==> (r is Ok) && final(self)@ == with_program(
                old(self)@,
                rom@,
            ),
    {
        if rom.len() > MAX_PROGRAM_LEN {
            return Err(CpuError::ProgramTooLarge { len: rom.len() });
        }
        let ghost s0 = self@;
        let ghost before = self.mem@;
        let mut k: usize = 0;
        while k < rom.len()
            invariant
                rom@.len() <= MAX_PROGRAM_LEN,
                k <= rom@.len(),
                self.mem@.len() == MEM_SIZE,
                before.len() == MEM_SIZE,
                self@ == (MachineState { mem: self.mem@, ..s0 }),
                forall|a: int|
                    0 <= a < MEM_SIZE ==> self.mem@[a] == if PROGRAM_START <= a < PROGRAM_START + k {
                        rom@[a - PROGRAM_START]
                    } else {
                        before[a]
                    },
            decreases rom@.len() - k,
        {
            self.mem.set(PROGRAM_START as usize + k, rom[k]);
            k = k + 1;
        }
        assert(self.mem@ =~= loaded(before, rom@));
        Ok(())
    }

    /// Fetches the instruction word at the program counter and moves the
    /// counter on by one instruction.
    pub fn fetch(&mut self) -> (r: u16)
        requires
            old(self).wf(),
        ensures
            final(self).wf(),
            r == opcode_at(old(self)@.mem, old(self)@.pc),
            final(self)@ == fetched(old(self)@),
    {
        let hi = self.mem[self.pc as usize] as u16;
        let lo = self.mem[((self.pc + 1) % 0x1000) as usize] as u16;
        self.pc = self.pc_plus(1);
        hi * 256 + lo
    }

    /// Counts both timers down by one, each only while it is above zero.
    pub fn tick_timers(&mut self)
        requires
            old(self).wf(),
        ensures
            final(self).wf(),
            final(self)@ == ticked(old(self)@),
    {
        if self.delay_timer > 0 {
            self.delay_timer = self.delay_timer - 1;
        }
        if self.sound_timer > 0 {
            self.sound_timer = self.sound_timer - 1;
        }
    }
}


impl CPU {
    /// The address `n` instructions after the program counter.
    fn pc_plus(&self, n: u16) -> (r: u16)
        requires
            self.wf(),
            n <= 2,
        ensures
            r == pc_after(self@.pc, n as int),
            r < MEM_SIZE,
    {
        (self.pc + 2 * n) % 0x1000
    }

    /// The address one instruction before the program counter.
    fn pc_before(&self) -> (r: u16)
        requires
            self.wf(),
        ensures
            r == pc_before(self@.pc),
    {
        (self.pc + 0x1000 - 2) % 0x1000
    }

    /// The value of register `x`.
    fn reg(&self, x: u8) -> (r: u8)
        requires
            self.wf(),
            x < NUM_REGS,
        ensures
            r == self@.v[x as int],
    {
        self.v_reg[x as usize]
    }

    /// Sets register `x` to `val`.
    fn set_reg(&mut self, x: u8, val: u8)
        requires
            old(self).wf(),
            x < NUM_REGS,
        ensures
            final(self).wf(),
            final(self)@ == old(self)@.set_v(x as int, val),
    {
        self.v_reg.set(x as usize, val);
    }

    /// Executes one instruction that transfers control (a jump, a call, a
    /// return, a conditional skip), the ignored machine-routine call, or the
    /// display clear. The program counter already lies past the instruction.
    fn exec_flow(&mut self, ins: Instruction, keys: &[bool; NUM_KEYS]) -> (r: Result<Effect, CpuError>)
        requires
            old(self).wf(),
            ins.wf(),
            ins is Sys || ins is Cls || ins is Ret || ins is Jp || ins is Call || ins is SeImm
                || ins is SneImm || ins is SeReg || ins is SneReg || ins is JpV0 || ins is Skp
                || ins is Sknp,
        ensures
            final(self).wf(),
            outcome(flow_spec(old(self)@, ins, keys@), old(self)@, r, final(self)@),
    {
        let skip = self.pc_plus(1);
        match ins {
            Instruction::Sys { .. } => Ok(Effect::Continue),
            Instruction::Cls => {
                self.screen = blank_screen();
                Ok(Effect::Redraw)
            },
            Instruction::Ret => {
                match self.stack.pop() {
                    Some(target) => {
                        self.pc = target;
                        Ok(Effect::Continue)
                    },
                    None => Err(CpuError::StackUnderflow { pc: self.pc_before() }),
                }
            },
            Instruction::Jp { nnn } => {
                self.pc = nnn;
                Ok(Effect::Continue)
            },
            Instruction::Call { nnn } => {
                if self.stack.len() >= STACK_DEPTH {
                    Err(CpuError::StackOverflow { pc: self.pc_before() })
                } else {
                    self.stack.push(self.pc);
                    self.pc = nnn;
                    Ok(Effect::Continue)
                }
            },
            Instruction::SeImm { x, kk } => {
                self.pc = if self.reg(x) == kk { skip } else { self.pc };
                Ok(Effect::Continue)
            },
            Instruction::SneImm { x, kk } => {
                self.pc = if self.reg(x) != kk { skip } else { self.pc };
                Ok(Effect::Continue)
            },
            Instruction::SeReg { x, y } => {
                self.pc = if self.reg(x) == self.reg(y) { skip } else { self.pc };
                Ok(Effect::Continue)
            },
            Instruction::SneReg { x, y } => {
                self.pc = if self.reg(x) != self.reg(y) { skip } else { self.pc };
                Ok(Effect::Continue)
            },
            Instruction::JpV0 { nnn } => {
                self.pc = (self.reg(0) as u16 + nnn) % 0x1000;
                Ok(Effect::Continue)
            },
            Instruction::Skp { x } => {
                self.pc = if keys[(self.reg(x) % 16) as usize] { skip } else { self.pc };
                Ok(Effect::Continue)
            },
            Instruction::Sknp { x } => {
                self.pc = if !keys[(self.reg(x) % 16) as usize] { skip } else { self.pc };
                Ok(Effect::Continue)
            },
            _ => Ok(Effect::Continue),
        }
    }

    /// Executes one instruction that computes into a register.
    #[verifier::rlimit(40)]
    fn exec_alu(&mut self, ins: Instruction, rnd: u8) -> (r: Result<Effect, CpuError>)
        requires
            old(self).wf(),
            ins.wf(),
            ins is LdImm || ins is AddImm || ins is LdReg || ins is Or || ins is And || ins is Xor
                || ins is AddReg || ins is Sub || ins is Shr || ins is Subn || ins is Shl
                || ins is Rnd,
        ensures
            final(self).wf(),
            outcome(alu_spec(old(self)@, ins, rnd), old(self)@, r, final(self)@),
    {
        match ins {
            Instruction::LdImm { x, kk } => self.set_reg(x, kk),
            Instruction::AddImm { x, kk } => {
                let sum = self.reg(x) as u16 + kk as u16;
                self.set_reg(x, (sum % 256) as u8);
            },
            Instruction::LdReg { x, y } => {
                let vy = self.reg(y);
                self.set_reg(x, vy);
            },
            Instruction::Or { x, y } => {
                let val = self.reg(x) | self.reg(y);
                self.set_reg(x, val);
            },
            Instruction::And { x, y } => {
                let val = self.reg(x) & self.reg(y);
                self.set_reg(x, val);
            },
            Instruction::Xor { x, y } => {
                let val = self.reg(x) ^ self.reg(y);
                self.set_reg(x, val);
            },
            Instruction::AddReg { x, y } => {
                let sum = self.reg(x) as u16 + self.reg(y) as u16;
                self.set_reg(FLAG, if sum > 255 { 1 } else { 0 });
                self.set_reg(x, (sum % 256) as u8);
            },
            Instruction::Sub { x, y } => {
                let vx = self.reg(x);
                let vy = self.reg(y);
                self.set_reg(FLAG, if vx >= vy { 1 } else { 0 });
                self.set_reg(x, ((256 + vx as u16 - vy as u16) % 256) as u8);
            },
            Instruction::Subn { x, y } => {
                let vx = self.reg(x);
                let vy = self.reg(y);
                self.set_reg(FLAG, if vy >= vx { 1 } else { 0 });
                self.set_reg(x, ((256 + vy as u16 - vx as u16) % 256) as u8);
            },
            Instruction::Shr { x, .. } => {
                let vx = self.reg(x);
                self.set_reg(FLAG, vx % 2);
                self.set_reg(x, vx / 2);
            },
            Instruction::Shl { x, .. } => {
                let vx = self.reg(x);
                self.set_reg(FLAG, vx / 128);
                self.set_reg(x, ((vx as u16 * 2) % 256) as u8);
            },
            Instruction::Rnd { x, kk } => self.set_reg(x, rnd & kk),
            _ => {},
        }
        Ok(Effect::Continue)
    }
}


impl CPU {
    /// Whether the sprite of `n` rows at the index register, drawn at
    /// column `x0` and row `y0`, covers the pixel `c`.
    fn sprite_pixel(&self, x0: usize, y0: usize, n: u8, c: usize) -> (r: bool)
        requires
            self.wf(),
            x0 < COLS,
            y0 < ROWS,
            n < 16,
            c < SCREEN_CELLS,
        ensures
            r == sprite_bit(self@.mem, self@.i, x0 as int, y0 as int, n as int, c as int),
    {
        let k = (c / COLS + ROWS - y0) % ROWS;
        let b = (c % COLS + COLS - x0) % COLS;
        assert(k == (c / COLS - y0) % (ROWS as int));
        assert(b == (c % COLS - x0) % (COLS as int));
        if k < n as usize && b < 8 {
            let byte = self.mem[(self.i_reg as usize + k) % MEM_SIZE];
            (byte >> ((7 - b) as u8)) & 1 == 1
        } else {
            false
        }
    }

    /// Draws the `n`-row sprite at the index register at `(Vx, Vy)` by
    /// exclusive or, and sets the flag register to whether a lit pixel
    /// went out.
    fn draw(&mut self, x: u8, y: u8, n: u8)
        requires
            old(self).wf(),
            x < NUM_REGS,
            y < NUM_REGS,
            n < 16,
        ensures
            final(self).wf(),
            final(self)@ == draw_spec(old(self)@, x, y, n),
    {
        let ghost s0 = self@;
        let x0 = (self.reg(x) % 64) as usize;
        let y0 = (self.reg(y) % 32) as usize;
        let mut hit = false;
        let mut c: usize = 0;
        while c < SCREEN_CELLS
            invariant
                s0.wf(),
                x0 < COLS,
                y0 < ROWS,
                n < 16,
                c <= SCREEN_CELLS,
                self@ == with_screen(s0, self.screen@),
                self.screen@.len() == SCREEN_CELLS,
                forall|j: int|
                    0 <= j < c ==> self.screen@[j] == (s0.screen[j] != sprite_bit(
                        s0.mem,
                        s0.i,
                        x0 as int,
                        y0 as int,
                        n as int,
                        j,
                    )),
                forall|j: int| c <= j < SCREEN_CELLS ==> self.screen@[j] == s0.screen[j],
                hit == exists|j: int|
                    0 <= j < c && s0.screen[j] && #[trigger] sprite_bit(
                        s0.mem,
                        s0.i,
                        x0 as int,
                        y0 as int,
                        n as int,
                        j,
                    ),
            decreases SCREEN_CELLS - c,
        {
            let on = self.sprite_pixel(x0, y0, n, c);
            let lit = self.screen[c];
            if on {
                if lit {
                    hit = true;
                }
                self.screen.set(c, !lit);
            }
            c = c + 1;
        }
        assert(self.screen@ =~= drawn(s0.screen, s0.mem, s0.i, x0 as int, y0 as int, n as int));
        self.set_reg(FLAG, if hit { 1 } else { 0 });
    }

    /// Executes one instruction that moves data between registers, timers,
    /// the index register, memory and the keyboard.
    fn exec_data(&mut self, ins: Instruction, keys: &[bool; NUM_KEYS]) -> (r: Result<Effect, CpuError>)
        requires
            old(self).wf(),
            ins.wf(),
            ins is LdI || ins is LdVxDt || ins is LdVxKey || ins is LdDtVx || ins is LdStVx
                || ins is AddI || ins is LdFont || ins is LdBcd || ins is StoreRegs
                || ins is LoadRegs,
        ensures
            final(self).wf(),
            outcome(data_spec(old(self)@, ins, keys@), old(self)@, r, final(self)@),
    {
        match ins {
            Instruction::LdI { nnn } => self.i_reg = nnn,
            Instruction::LdVxDt { x } => {
                let t = self.delay_timer;
                self.set_reg(x, t);
            },
            Instruction::LdVxKey { x } => {
                let mut k: usize = 0;
                while k < NUM_KEYS && !keys[k]
                    invariant
                        k <= NUM_KEYS,
                        keys@.len() == NUM_KEYS,
                        first_pressed(keys@, 0) == first_pressed(keys@, k as int),
                    decreases NUM_KEYS - k,
                {
                    k = k + 1;
                }
                if k == NUM_KEYS {
                    self.pc = self.pc_before();
                    return Ok(Effect::AwaitingKey);
                }
                self.set_reg(x, k as u8);
            },
            Instruction::LdDtVx { x } => self.delay_timer = self.reg(x),
            Instruction::LdStVx { x } => self.sound_timer = self.reg(x),
            Instruction::AddI { x } => {
                self.i_reg = ((self.i_reg as u32 + self.reg(x) as u32) % 0x10000) as u16;
            },
            Instruction::LdFont { x } => self.i_reg = 5 * (self.reg(x) % 16) as u16,
            Instruction::LdBcd { x } => {
                let val = self.reg(x);
                let base = self.i_reg as usize;
                self.mem.set(base % MEM_SIZE, val / 100);
                self.mem.set((base + 1) % MEM_SIZE, (val / 10) % 10);
                self.mem.set((base + 2) % MEM_SIZE, val % 10);
            },
            Instruction::StoreRegs { x } => self.store_regs(x),
            Instruction::LoadRegs { x } => self.load_regs(x),
            _ => {},
        }
        Ok(Effect::Continue)
    }

    /// Writes `V0..=Vx` to memory from the index register on.
    fn store_regs(&mut self, x: u8)
        requires
            old(self).wf(),
            x < NUM_REGS,
        ensures
            final(self).wf(),
            final(self)@ == (MachineState { mem: stored_regs(old(self)@, x), ..old(self)@ }),
    {
        let ghost s0 = self@;
        let base = self.i_reg as usize;
        let mut k: usize = 0;
        while k <= x as usize
            invariant
                s0.wf(),
                x < NUM_REGS,
                k <= x + 1,
                base == s0.i,
                self@ == (MachineState { mem: self.mem@, ..s0 }),
                self.mem@.len() == MEM_SIZE,
                forall|a: int|
                    0 <= a < MEM_SIZE ==> #[trigger] self.mem@[a] == if (a - base) % (MEM_SIZE as int) < k {
                        s0.v[(a - base) % (MEM_SIZE as int)]
                    } else {
                        s0.mem[a]
                    },
            decreases x + 1 - k,
        {
            let val = self.v_reg[k];
            let at = (base + k) % MEM_SIZE;
            self.mem.set(at, val);
            assert forall|a: int| 0 <= a < MEM_SIZE implies (#[trigger] self.mem@[a] == val
                || a != at) && (((a - base) % (MEM_SIZE as int) == k) <==> a == at) by {
                lemma_offset(base as int, k as int, a);
            }
            k = k + 1;
        }
        assert(self.mem@ =~= stored_regs(s0, x));
    }

    /// Reads `V0..=Vx` from memory from the index register on.
    fn load_regs(&mut self, x: u8)
        requires
            old(self).wf(),
            x < NUM_REGS,
        ensures
            final(self).wf(),
            final(self)@ == (MachineState { v: loaded_regs(old(self)@, x), ..old(self)@ }),
    {
        let ghost s0 = self@;
        let base = self.i_reg as usize;
        let mut k: usize = 0;
        while k <= x as usize
            invariant
                s0.wf(),
                x < NUM_REGS,
                k <= x + 1,
                base == s0.i,
                self@ == (MachineState { v: self.v_reg@, ..s0 }),
                self.v_reg@.len() == NUM_REGS,
                forall|j: int|
                    0 <= j < NUM_REGS ==> #[trigger] self.v_reg@[j] == if j < k {
                        s0.mem[addr(s0.i, j)]
                    } else {
                        s0.v[j]
                    },
            decreases x + 1 - k,
        {
            let val = self.mem[(base + k) % MEM_SIZE];
            self.v_reg.set(k, val);
            k = k + 1;
        }
        assert(self.v_reg@ =~= loaded_regs(s0, x));
    }
}

/// An address lies `off` bytes after `base`, modulo the memory size, exactly
/// when it is the address `addr(base, off)`.
proof fn lemma_offset(base: int, off: int, a: int)
    requires
        0 <= base,
        0 <= off < MEM_SIZE,
        0 <= a < MEM_SIZE,
    ensures
        ((a - base) % (MEM_SIZE as int) == off) <==> (a == (base + off) % (MEM_SIZE as int)),
{
}


impl CPU {
    /// Executes `ins`, which has just been fetched: the program counter
    /// already lies one instruction past it. `keys` are the pressed keys and
    /// `rnd` is the byte that a random instruction uses. On failure the
    /// machine is left as it was.
    pub fn execute(&mut self, ins: Instruction, keys: &[bool; NUM_KEYS], rnd: u8) -> (r: Result<Effect, CpuError>)
        requires
            old(self).wf(),
            ins.wf(),
        ensures
            final(self).wf(),
            outcome(exec_spec(old(self)@, ins, keys@, rnd), old(self)@, r, final(self)@),
    {
        match ins {
            Instruction::Drw { x, y, n } => {
                self.draw(x, y, n);
                Ok(Effect::Redraw)
            },
            Instruction::Sys { .. } | Instruction::Cls | Instruction::Ret | Instruction::Jp { .. }
            | Instruction::Call { .. } | Instruction::SeImm { .. } | Instruction::SneImm { .. }
            | Instruction::SeReg { .. } | Instruction::SneReg { .. } | Instruction::JpV0 { .. }
            | Instruction::Skp { .. } | Instruction::Sknp { .. } => self.exec_flow(ins, keys),
            Instruction::LdImm { .. } | Instruction::AddImm { .. } | Instruction::LdReg { .. }
            | Instruction::Or { .. } | Instruction::And { .. } | Instruction::Xor { .. }
            | Instruction::AddReg { .. } | Instruction::Sub { .. } | Instruction::Subn { .. }
            | Instruction::Shr { .. } | Instruction::Shl { .. } | Instruction::Rnd { .. } => {
                self.exec_alu(ins, rnd)
            },
            _ => self.exec_data(ins, keys),
        }
    }

    /// One fetch-decode-execute cycle, with `keys` the pressed keys and
    /// `rnd` the byte that a random instruction uses. A word that encodes no
    /// instruction is reported with its address; on any failure the machine
    /// is left as it was.
    pub fn step_with_random(&mut self, keys: &[bool; NUM_KEYS], rnd: u8) -> (r: Result<Effect, CpuError>)
        requires
            old(self).wf(),
        ensures
            final(self).wf(),
            outcome(cycle_spec(old(self)@, keys@, rnd), old(self)@, r, final(self)@),
    {
        let at = self.pc;
        let opcode = self.fetch();
        let r = match decode(opcode) {
            Some(ins) => self.execute(ins, keys, rnd),
            None => Err(CpuError::UnknownOpcode { pc: at, opcode }),
        };
        if r.is_err() {
            self.pc = at;
        }
        r
    }

    /// One fetch-decode-execute cycle, with `keys` the pressed keys; a random
    /// instruction draws its byte from the thread-local generator. The
    /// outcome is the one `cycle_spec` gives for some random byte.
    pub fn step(&mut self, keys: &[bool; NUM_KEYS]) -> (r: Result<Effect, CpuError>)
        requires
            old(self).wf(),
        ensures
            final(self).wf(),
            exists|rnd: u8| #[trigger] outcome(cycle_spec(old(self)@, keys@, rnd), old(self)@, r, final(self)@),
    {
        let rnd = random_byte();
        self.step_with_random(keys, rnd)
    }
}


impl CPU {
    /// The value of register `x`.
    pub fn register(&self, x: u8) -> (r: u8)
        requires
            self.wf(),
            x < NUM_REGS,
        ensures
            r == self@.v[x as int],
    {
        self.v_reg[x as usize]
    }

    /// The index register.
    pub fn index(&self) -> (r: u16)
        ensures
            r == self@.i,
    {
        self.i_reg
    }

    /// The program counter.
    pub fn program_counter(&self) -> (r: u16)
        ensures
            r == self@.pc,
    {
        self.pc
    }

    /// The delay timer.
    pub fn delay_timer(&self) -> (r: u8)
        ensures
            r == self@.delay,
    {
        self.delay_timer
    }

    /// The sound timer.
    pub fn sound_timer(&self) -> (r: u8)
        ensures
            r == self@.sound,
    {
        self.sound_timer
    }

    /// The number of return addresses on the stack.
    pub fn stack_depth(&self) -> (r: usize)
        ensures
            r == self@.stack.len(),
    {
        self.stack.len()
    }

    /// The byte at memory address `a`, which wraps modulo the memory size.
    pub fn memory_at(&self, a: u16) -> (r: u8)
        requires
            self.wf(),
        ensures
            r == self@.mem[addr(a, 0)],
    {
        self.mem[a as usize % MEM_SIZE]
    }

    /// Whether the pixel at column `col` and row `row` is lit.
    pub fn pixel(&self, col: usize, row: usize) -> (r: bool)
        requires
            self.wf(),
            col < COLS,
            row < ROWS,
        ensures
            r == self@.screen[row * COLS + col],
    {
        self.screen[row * COLS + col]
    }

    /// A copy of the display, one entry per pixel, row after row.
    pub fn display_snapshot(&self) -> (r: Vec<bool>)
        ensures
            r@ == self@.screen,
    {
        self.screen.clone()
    }
}

} // verus!
