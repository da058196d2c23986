//! Splitting an instruction word into its fields, and the table of
//! instruction forms.
use vstd::prelude::*;

verus! {

/// One of the instruction forms of the machine, with its operands.
///
/// `x` and `y` name registers, `kk` is an 8-bit immediate, `nnn` a 12-bit
/// address and `n` a 4-bit sprite height.
#[derive(Clone, Copy, Debug, PartialEq, Eq, Structural)]
pub enum Instruction {
    /// `0nnn`: call a machine routine; ignored by this interpreter.
    Sys { nnn: u16 },
    /// `00E0`: clear the display.
    Cls,
    /// `00EE`: return from a subroutine.
    Ret,
    /// `1nnn`: jump to `nnn`.
    Jp { nnn: u16 },
    /// `2nnn`: call the subroutine at `nnn`.
    Call { nnn: u16 },
    /// `3xkk`: skip the next instruction if `Vx == kk`.
    SeImm { x: u8, kk: u8 },
    /// `4xkk`: skip the next instruction if `Vx != kk`.
    SneImm { x: u8, kk: u8 },
    /// `5xy0`: skip the next instruction if `Vx == Vy`.
    SeReg { x: u8, y: u8 },
    /// `6xkk`: `Vx = kk`.
    LdImm { x: u8, kk: u8 },
    /// `7xkk`: `Vx = Vx + kk`, wrapping, flag untouched.
    AddImm { x: u8, kk: u8 },
    /// `8xy0`: `Vx = Vy`.
    LdReg { x: u8, y: u8 },
    /// `8xy1`: `Vx = Vx | Vy`.
    Or { x: u8, y: u8 },
    /// `8xy2`: `Vx = Vx & Vy`.
    And { x: u8, y: u8 },
    /// `8xy3`: `Vx = Vx ^ Vy`.
    Xor { x: u8, y: u8 },
    /// `8xy4`: `Vx = Vx + Vy`, flag set on carry.
    AddReg { x: u8, y: u8 },
    /// `8xy5`: `Vx = Vx - Vy`, flag set when no borrow occurs.
    Sub { x: u8, y: u8 },
    /// `8xy6`: `Vx = Vx >> 1`, flag set to the bit shifted out.
    Shr { x: u8, y: u8 },
    /// `8xy7`: `Vx = Vy - Vx`, flag set when no borrow occurs.
    Subn { x: u8, y: u8 },
    /// `8xyE`: `Vx = Vx << 1`, flag set to the bit shifted out.
    Shl { x: u8, y: u8 },
    /// `9xy0`: skip the next instruction if `Vx != Vy`.
    SneReg { x: u8, y: u8 },
    /// `Annn`: `I = nnn`.
    LdI { nnn: u16 },
    /// `Bnnn`: jump to `V0 + nnn`.
    JpV0 { nnn: u16 },
    /// `Cxkk`: `Vx = random byte & kk`.
    Rnd { x: u8, kk: u8 },
    /// `Dxyn`: draw an `n`-row sprite from memory at `I` at `(Vx, Vy)`.
    Drw { x: u8, y: u8, n: u8 },
    /// `Ex9E`: skip the next instruction if the key `Vx` is pressed.
    Skp { x: u8 },
    /// `ExA1`: skip the next instruction if the key `Vx` is not pressed.
    Sknp { x: u8 },
    /// `Fx07`: `Vx = delay timer`.
    LdVxDt { x: u8 },
    /// `Fx0A`: wait for a key press and store the key in `Vx`.
    LdVxKey { x: u8 },
    /// `Fx15`: `delay timer = Vx`.
    LdDtVx { x: u8 },
    /// `Fx18`: `sound timer = Vx`.
    LdStVx { x: u8 },
    /// `Fx1E`: `I = I + Vx`.
    AddI { x: u8 },
    /// `Fx29`: `I` = address of the font glyph for the digit in `Vx`.
    LdFont { x: u8 },
    /// `Fx33`: store the decimal digits of `Vx` at `I`, `I + 1`, `I + 2`.
    LdBcd { x: u8 },
    /// `Fx55`: store `V0..=Vx` in memory from `I`.
    StoreRegs { x: u8 },
    /// `Fx65`: load `V0..=Vx` from memory from `I`.
    LoadRegs { x: u8 },
}

impl Instruction {
    /// Every operand is within the width of its field.
    pub open spec fn wf(self) -> bool {
        match self {
            Instruction::Sys { nnn } | Instruction::Jp { nnn } | Instruction::Call { nnn }
            | Instruction::LdI { nnn } | Instruction::JpV0 { nnn } => nnn < 0x1000,
            Instruction::Cls | Instruction::Ret => true,
            Instruction::SeImm { x, kk } | Instruction::SneImm { x, kk }
            | Instruction::LdImm { x, kk } | Instruction::AddImm { x, kk }
            | Instruction::Rnd { x, kk } => x < 16,
            Instruction::SeReg { x, y } | Instruction::LdReg { x, y } | Instruction::Or { x, y }
            | Instruction::And { x, y } | Instruction::Xor { x, y } | Instruction::AddReg { x, y }
            | Instruction::Sub { x, y } | Instruction::Shr { x, y } | Instruction::Subn { x, y }
            | Instruction::Shl { x, y } | Instruction::SneReg { x, y } => x < 16 && y < 16,
            Instruction::Drw { x, y, n } => x < 16 && y < 16 && n < 16,
            Instruction::Skp { x } | Instruction::Sknp { x } | Instruction::LdVxDt { x }
            | Instruction::LdVxKey { x } | Instruction::LdDtVx { x } | Instruction::LdStVx { x }
            | Instruction::AddI { x } | Instruction::LdFont { x } | Instruction::LdBcd { x }
            | Instruction::StoreRegs { x } | Instruction::LoadRegs { x } => x < 16,
        }
    }
}

/// The four 4-bit fields of an instruction word, most significant first.
pub open spec fn nibbles_of(opcode: u16) -> (u8, u8, u8, u8) {
    (
        (opcode / 0x1000) as u8,
        ((opcode / 0x100) % 0x10) as u8,
        ((opcode / 0x10) % 0x10) as u8,
        (opcode % 0x10) as u8,
    )
}

/// The instruction form that a word encodes, if it encodes one.
pub open spec fn decode_spec(opcode: u16) -> Option<Instruction> {
    let nnn = opcode % 0x1000;
    let kk = (opcode % 0x100) as u8;
    match nibbles_of(opcode) {
        (0x0, 0x0, 0xE, 0x0) => Some(Instruction::Cls),
        (0x0, 0x0, 0xE, 0xE) => Some(Instruction::Ret),
        (0x0, _, _, _) => Some(Instruction::Sys { nnn }),
        (0x1, _, _, _) => Some(Instruction::Jp { nnn }),
        (0x2, _, _, _) => Some(Instruction::Call { nnn }),
        (0x3, x, _, _) => Some(Instruction::SeImm { x, kk }),
        (0x4, x, _, _) => Some(Instruction::SneImm { x, kk }),
        (0x5, x, y, 0x0) => Some(Instruction::SeReg { x, y }),
        (0x6, x, _, _) => Some(Instruction::LdImm { x, kk }),
        (0x7, x, _, _) => Some(Instruction::AddImm { x, kk }),
        (0x8, x, y, 0x0) => Some(Instruction::LdReg { x, y }),
        (0x8, x, y, 0x1) => Some(Instruction::Or { x, y }),
        (0x8, x, y, 0x2) => Some(Instruction::And { x, y }),
        (0x8, x, y, 0x3) => Some(Instruction::Xor { x, y }),
        (0x8, x, y, 0x4) => Some(Instruction::AddReg { x, y }),
        (0x8, x, y, 0x5) => Some(Instruction::Sub { x, y }),
        (0x8, x, y, 0x6) => Some(Instruction::Shr { x, y }),
        (0x8, x, y, 0x7) => Some(Instruction::Subn { x, y }),
        (0x8, x, y, 0xE) => Some(Instruction::Shl { x, y }),
        (0x9, x, y, 0x0) => Some(Instruction::SneReg { x, y }),
        (0xA, _, _, _) => Some(Instruction::LdI { nnn }),
        (0xB, _, _, _) => Some(Instruction::JpV0 { nnn }),
        (0xC, x, _, _) => Some(Instruction::Rnd { x, kk }),
        (0xD, x, y, n) => Some(Instruction::Drw { x, y, n }),
        (0xE, x, 0x9, 0xE) => Some(Instruction::Skp { x }),
        (0xE, x, 0xA, 0x1) => Some(Instruction::Sknp { x }),
        (0xF, x, 0x0, 0x7) => Some(Instruction::LdVxDt { x }),
        (0xF, x, 0x0, 0xA) => Some(Instruction::LdVxKey { x }),
        (0xF, x, 0x1, 0x5) => Some(Instruction::LdDtVx { x }),
        (0xF, x, 0x1, 0x8) => Some(Instruction::LdStVx { x }),
        (0xF, x, 0x1, 0xE) => Some(Instruction::AddI { x }),
        (0xF, x, 0x2, 0x9) => Some(Instruction::LdFont { x }),
        (0xF, x, 0x3, 0x3) => Some(Instruction::LdBcd { x }),
        (0xF, x, 0x5, 0x5) => Some(Instruction::StoreRegs { x }),
        (0xF, x, 0x6, 0x5) => Some(Instruction::LoadRegs { x }),
        _ => None,
    }
}

/// The four 4-bit fields of `opcode`, most significant first.
pub fn nibbles(opcode: u16) -> (r: (u8, u8, u8, u8))
    ensures
        r == nibbles_of(opcode),
        r.0 < 16 && r.1 < 16 && r.2 < 16 && r.3 < 16,
{
    let a = (opcode / 0x1000) as u8;
    let b = ((opcode / 0x100) % 0x10) as u8;
    let c = ((opcode / 0x10) % 0x10) as u8;
    let d = (opcode % 0x10) as u8;
    (a, b, c, d)
}

/// The 12-bit address field of `opcode`.
pub fn nnn(opcode: u16) -> (r: u16)
    ensures
        r == opcode % 0x1000,
{
    opcode % 0x1000
}

/// The 8-bit immediate field of `opcode`.
pub fn kk(opcode: u16) -> (r: u8)
    ensures
        r == opcode % 0x100,
{
    (opcode % 0x100) as u8
}

/// The instruction that `opcode` encodes, or `None` for a word that matches
/// no instruction form.
pub fn decode(opcode: u16) -> (r: Option<Instruction>)
    ensures
        r == decode_spec(opcode),
        r matches Some(ins) ==> ins.wf(),
{
    let nnn = nnn(opcode);
    let kk = kk(opcode);
    match nibbles(opcode) {
        (0x0, 0x0, 0xE, 0x0) => Some(Instruction::Cls),
        (0x0, 0x0, 0xE, 0xE) => Some(Instruction::Ret),
        (0x0, _, _, _) => Some(Instruction::Sys { nnn }),
        (0x1, _, _, _) => Some(Instruction::Jp { nnn }),
        (0x2, _, _, _) => Some(Instruction::Call { nnn }),
        (0x3, x, _, _) => Some(Instruction::SeImm { x, kk }),
        (0x4, x, _, _) => Some(Instruction::SneImm { x, kk }),
        (0x5, x, y, 0x0) => Some(Instruction::SeReg { x, y }),
        (0x6, x, _, _) => Some(Instruction::LdImm { x, kk }),
        (0x7, x, _, _) => Some(Instruction::AddImm { x, kk }),
        (0x8, x, y, 0x0) => Some(Instruction::LdReg { x, y }),
        (0x8, x, y, 0x1) => Some(Instruction::Or { x, y }),
        (0x8, x, y, 0x2) => Some(Instruction::And { x, y }),
        (0x8, x, y, 0x3) => Some(Instruction::Xor { x, y }),
        (0x8, x, y, 0x4) => Some(Instruction::AddReg { x, y }),
        (0x8, x, y, 0x5) => Some(Instruction::Sub { x, y }),
        (0x8, x, y, 0x6) => Some(Instruction::Shr { x, y }),
        (0x8, x, y, 0x7) => Some(Instruction::Subn { x, y }),
        (0x8, x, y, 0xE) => Some(Instruction::Shl { x, y }),
        (0x9, x, y, 0x0) => Some(Instruction::SneReg { x, y }),
        (0xA, _, _, _) => Some(Instruction::LdI { nnn }),
        (0xB, _, _, _) => Some(Instruction::JpV0 { nnn }),
        (0xC, x, _, _) => Some(Instruction::Rnd { x, kk }),
        (0xD, x, y, n) => Some(Instruction::Drw { x, y, n }),
        (0xE, x, 0x9, 0xE) => Some(Instruction::Skp { x }),
        (0xE, x, 0xA, 0x1) => Some(Instruction::Sknp { x }),
        (0xF, x, 0x0, 0x7) => Some(Instruction::LdVxDt { x }),
        (0xF, x, 0x0, 0xA) => Some(Instruction::LdVxKey { x }),
        (0xF, x, 0x1, 0x5) => Some(Instruction::LdDtVx { x }),
        (0xF, x, 0x1, 0x8) => Some(Instruction::LdStVx { x }),
        (0xF, x, 0x1, 0xE) => Some(Instruction::AddI { x }),
        (0xF, x, 0x2, 0x9) => Some(Instruction::LdFont { x }),
        (0xF, x, 0x3, 0x3) => Some(Instruction::LdBcd { x }),
        (0xF, x, 0x5, 0x5) => Some(Instruction::StoreRegs { x }),
        (0xF, x, 0x6, 0x5) => Some(Instruction::LoadRegs { x }),
        _ => None,
    }
}

} // verus!
