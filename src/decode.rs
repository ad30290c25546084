use crate::fault::Fault;
use vstd::prelude::*;

verus! {

/// One decoded instruction. Register operands are below 16, `n` is a nibble,
/// addresses are 12-bit.
#[derive(Clone, Copy, Debug, PartialEq, Eq, Structural)]
pub enum Instruction {
    /// 00E0: clear the screen.
    ClearScreen,
    /// 00EE: return from a subroutine.
    Return,
    /// 1NNN: jump to NNN.
    Jump(u16),
    /// 2NNN: call the subroutine at NNN.
    Call(u16),
    /// 3XNN: skip the next instruction if VX == NN.
    SkipEqImm(u8, u8),
    /// 4XNN: skip the next instruction if VX != NN.
    SkipNeImm(u8, u8),
    /// 5XY0: skip the next instruction if VX == VY.
    SkipEqReg(u8, u8),
    /// 6XNN: VX = NN.
    LoadImm(u8, u8),
    /// 7XNN: VX += NN, without carry flag.
    AddImm(u8, u8),
    /// 8XY0: VX = VY.
    Copy(u8, u8),
    /// 8XY1: VX |= VY.
    Or(u8, u8),
    /// 8XY2: VX &= VY.
    And(u8, u8),
    /// 8XY3: VX ^= VY.
    Xor(u8, u8),
    /// 8XY4: VX += VY, VF = carry.
    AddReg(u8, u8),
    /// 8XY5: VX -= VY, VF = no borrow.
    Sub(u8, u8),
    /// 8XY6: shift right, VF = the bit shifted out.
    ShiftRight(u8, u8),
    /// 8XY7: VX = VY - VX, VF = no borrow.
    SubRev(u8, u8),
    /// 8XYE: shift left, VF = the bit shifted out.
    ShiftLeft(u8, u8),
    /// 9XY0: skip the next instruction if VX != VY.
    SkipNeReg(u8, u8),
    /// ANNN: I = NNN.
    SetIndex(u16),
    /// BNNN: jump to NNN + V0.
    JumpV0(u16),
    /// CXNN: VX = random byte & NN.
    Random(u8, u8),
    /// DXYN: draw an N-row sprite from memory at I at (VX, VY).
    Draw(u8, u8, u8),
    /// EX9E: skip the next instruction if key VX is held.
    SkipKeyDown(u8),
    /// EXA1: skip the next instruction if key VX is not held.
    SkipKeyUp(u8),
    /// FX07: VX = delay timer.
    ReadDelay(u8),
    /// FX0A: wait for a key press and store its index in VX.
    WaitKey(u8),
    /// FX15: delay timer = VX.
    SetDelay(u8),
    /// FX18: sound timer = VX.
    SetSound(u8),
    /// FX1E: I += VX.
    AddIndex(u8),
    /// FX29: I = address of the glyph for digit VX.
    FontChar(u8),
    /// FX33: store the decimal digits of VX at I, I+1, I+2.
    Bcd(u8),
    /// FX55: store V0..=VX at I.
    StoreRegs(u8),
    /// FX65: load V0..=VX from I.
    LoadRegs(u8),
}

/// The `k`-th nibble of `w`, counted from the most significant one.
pub open spec fn nibble(w: u16, k: int) -> int {
    (w as int / pow16(3 - k)) % 16
}

pub open spec fn pow16(e: int) -> int {
    if e == 0 {
        1
    } else if e == 1 {
        16
    } else if e == 2 {
        256
    } else {
        4096
    }
}

/// What a 16-bit instruction word means.
pub open spec fn decode_word(w: u16) -> Result<Instruction, Fault> {
    let a = nibble(w, 0);
    let x = nibble(w, 1) as u8;
    let y = nibble(w, 2) as u8;
    let n = nibble(w, 3);
    let nn = (w % 256) as u8;
    let nnn = (w % 4096) as u16;
    if a == 0 {
        if w == 0x00E0 {
            Ok(Instruction::ClearScreen)
        } else if w == 0x00EE {
            Ok(Instruction::Return)
        } else if nnn != 0 {
            Err(Fault::UnsupportedLegacyOpcode(w))
        } else {
            Err(Fault::UnknownOpcode(w))
        }
    } else if a == 1 {
        Ok(Instruction::Jump(nnn))
    } else if a == 2 {
        Ok(Instruction::Call(nnn))
    } else if a == 3 {
        Ok(Instruction::SkipEqImm(x, nn))
    } else if a == 4 {
        Ok(Instruction::SkipNeImm(x, nn))
    } else if a == 5 && n == 0 {
        Ok(Instruction::SkipEqReg(x, y))
    } else if a == 6 {
        Ok(Instruction::LoadImm(x, nn))
    } else if a == 7 {
        Ok(Instruction::AddImm(x, nn))
    } else if a == 8 && n == 0 {
        Ok(Instruction::Copy(x, y))
    } else if a == 8 && n == 1 {
        Ok(Instruction::Or(x, y))
    } else if a == 8 && n == 2 {
        Ok(Instruction::And(x, y))
    } else if a == 8 && n == 3 {
        Ok(Instruction::Xor(x, y))
    } else if a == 8 && n == 4 {
        Ok(Instruction::AddReg(x, y))
    } else if a == 8 && n == 5 {
        Ok(Instruction::Sub(x, y))
    } else if a == 8 && n == 6 {
        Ok(Instruction::ShiftRight(x, y))
    } else if a == 8 && n == 7 {
        Ok(Instruction::SubRev(x, y))
    } else if a == 8 && n == 0xE {
        Ok(Instruction::ShiftLeft(x, y))
    } else if a == 9 && n == 0 {
        Ok(Instruction::SkipNeReg(x, y))
    } else if a == 0xA {
        Ok(Instruction::SetIndex(nnn))
    } else if a == 0xB {
        Ok(Instruction::JumpV0(nnn))
    } else if a == 0xC {
        Ok(Instruction::Random(x, nn))
    } else if a == 0xD {
        Ok(Instruction::Draw(x, y, n as u8))
    } else if a == 0xE && nn == 0x9E {
        Ok(Instruction::SkipKeyDown(x))
    } else if a == 0xE && nn == 0xA1 {
        Ok(Instruction::SkipKeyUp(x))
    } else if a == 0xF && nn == 0x07 {
        Ok(Instruction::ReadDelay(x))
    } else if a == 0xF && nn == 0x0A {
        Ok(Instruction::WaitKey(x))
    } else if a == 0xF && nn == 0x15 {
        Ok(Instruction::SetDelay(x))
    } else if a == 0xF && nn == 0x18 {
        Ok(Instruction::SetSound(x))
    } else if a == 0xF && nn == 0x1E {
        Ok(Instruction::AddIndex(x))
    } else if a == 0xF && nn == 0x29 {
        Ok(Instruction::FontChar(x))
    } else if a == 0xF && nn == 0x33 {
        Ok(Instruction::Bcd(x))
    } else if a == 0xF && nn == 0x55 {
        Ok(Instruction::StoreRegs(x))
    } else if a == 0xF && nn == 0x65 {
        Ok(Instruction::LoadRegs(x))
    } else {
        Err(Fault::UnknownOpcode(w))
    }
}

/// Operands of a decoded instruction are in range: registers and `n` below 16,
/// addresses below 4096.
pub open spec fn operands_in_range(i: Instruction) -> bool {
    match i {
        Instruction::ClearScreen | Instruction::Return => true,
        Instruction::Jump(a) | Instruction::Call(a) | Instruction::SetIndex(a)
        | Instruction::JumpV0(a) => a < 4096,
        Instruction::SkipEqImm(x, _) | Instruction::SkipNeImm(x, _) | Instruction::LoadImm(x, _)
        | Instruction::AddImm(x, _) | Instruction::Random(x, _) => x < 16,
        Instruction::SkipEqReg(x, y) | Instruction::Copy(x, y) | Instruction::Or(x, y)
        | Instruction::And(x, y) | Instruction::Xor(x, y) | Instruction::AddReg(x, y)
        | Instruction::Sub(x, y) | Instruction::ShiftRight(x, y) | Instruction::SubRev(x, y)
        | Instruction::ShiftLeft(x, y) | Instruction::SkipNeReg(x, y) => x < 16 && y < 16,
        Instruction::Draw(x, y, n) => x < 16 && y < 16 && n < 16,
        Instruction::SkipKeyDown(x) | Instruction::SkipKeyUp(x) | Instruction::ReadDelay(x)
        | Instruction::WaitKey(x) | Instruction::SetDelay(x) | Instruction::SetSound(x)
        | Instruction::AddIndex(x) | Instruction::FontChar(x) | Instruction::Bcd(x)
        | Instruction::StoreRegs(x) | Instruction::LoadRegs(x) => x < 16,
    }
}

/// Splits an instruction word into its four nibbles, its low byte and its
/// low twelve bits, and picks the instruction they name.
pub fn decode(w: u16) -> (r: Result<Instruction, Fault>)
    ensures
        r == decode_word(w),
        r matches Ok(i) ==> operands_in_range(i),
{
    let a: u16 = w >> 12;
    let b: u16 = (w >> 8) & 0xF;
    let c: u16 = (w >> 4) & 0xF;
    let d: u16 = w & 0xF;
    let nn: u16 = w & 0xFF;
    let nnn: u16 = w & 0xFFF;
    assert(a == w / 4096 && b == (w / 256) % 16 && c == (w / 16) % 16 && d == w % 16
        && nn == w % 256 && nnn == w % 4096) by (bit_vector)
        requires
            a == w >> 12,
            b == (w >> 8) & 0xF,
            c == (w >> 4) & 0xF,
            d == w & 0xF,
            nn == w & 0xFF,
            nnn == w & 0xFFF,
    ;
    assert(a == nibble(w, 0) && b == nibble(w, 1) && c == nibble(w, 2) && d == nibble(w, 3));
    let x = b as u8;
    let y = c as u8;
    let lo = nn as u8;
    match (a, b, c, d) {
        (0, 0, 0xE, 0) => Ok(Instruction::ClearScreen),
        (0, 0, 0xE, 0xE) => Ok(Instruction::Return),
        (0, _, _, _) => {
            if nnn != 0 {
                Err(Fault::UnsupportedLegacyOpcode(w))
            } else {
                Err(Fault::UnknownOpcode(w))
            }
        },
        (1, _, _, _) => Ok(Instruction::Jump(nnn)),
        (2, _, _, _) => Ok(Instruction::Call(nnn)),
        (3, _, _, _) => Ok(Instruction::SkipEqImm(x, lo)),
        (4, _, _, _) => Ok(Instruction::SkipNeImm(x, lo)),
        (5, _, _, 0) => Ok(Instruction::SkipEqReg(x, y)),
        (6, _, _, _) => Ok(Instruction::LoadImm(x, lo)),
        (7, _, _, _) => Ok(Instruction::AddImm(x, lo)),
        (8, _, _, 0) => Ok(Instruction::Copy(x, y)),
        (8, _, _, 1) => Ok(Instruction::Or(x, y)),
        (8, _, _, 2) => Ok(Instruction::And(x, y)),
        (8, _, _, 3) => Ok(Instruction::Xor(x, y)),
        (8, _, _, 4) => Ok(Instruction::AddReg(x, y)),
        (8, _, _, 5) => Ok(Instruction::Sub(x, y)),
        (8, _, _, 6) => Ok(Instruction::ShiftRight(x, y)),
        (8, _, _, 7) => Ok(Instruction::SubRev(x, y)),
        (8, _, _, 0xE) => Ok(Instruction::ShiftLeft(x, y)),
        (9, _, _, 0) => Ok(Instruction::SkipNeReg(x, y)),
        (0xA, _, _, _) => Ok(Instruction::SetIndex(nnn)),
        (0xB, _, _, _) => Ok(Instruction::JumpV0(nnn)),
        (0xC, _, _, _) => Ok(Instruction::Random(x, lo)),
        (0xD, _, _, _) => Ok(Instruction::Draw(x, y, d as u8)),
        (0xE, _, 9, 0xE) => Ok(Instruction::SkipKeyDown(x)),
        (0xE, _, 0xA, 1) => Ok(Instruction::SkipKeyUp(x)),
        (0xF, _, 0, 7) => Ok(Instruction::ReadDelay(x)),
        (0xF, _, 0, 0xA) => Ok(Instruction::WaitKey(x)),
        (0xF, _, 1, 5) => Ok(Instruction::SetDelay(x)),
        (0xF, _, 1, 8) => Ok(Instruction::SetSound(x)),
        (0xF, _, 1, 0xE) => Ok(Instruction::AddIndex(x)),
        (0xF, _, 2, 9) => Ok(Instruction::FontChar(x)),
        (0xF, _, 3, 3) => Ok(Instruction::Bcd(x)),
        (0xF, _, 5, 5) => Ok(Instruction::StoreRegs(x)),
        (0xF, _, 6, 5) => Ok(Instruction::LoadRegs(x)),
        _ => Err(Fault::UnknownOpcode(w)),
    }
}

} // verus!
