//! The abstract machine: what each instruction does to the machine state.
use crate::decode::{decode_word, operands_in_range, Instruction};
use crate::fault::Fault;
use vstd::prelude::*;

verus! {

/// Bytes of memory.
pub const MEM_SIZE: usize = 4096;
/// General-purpose registers V0..VF.
pub const N_REG: usize = 16;
/// Return addresses the call stack can hold.
pub const STACK_SIZE: usize = 16;
/// Logical keys.
pub const N_KEY: usize = 16;
/// Framebuffer width in pixels.
pub const WIDTH: usize = 64;
/// Framebuffer height in pixels.
pub const HEIGHT: usize = 32;
/// Pixels in the framebuffer.
pub const GFX_SIZE: usize = 2048;
/// Address where programs are loaded and execution starts.
pub const START_ROM: usize = 0x200;
/// Address of the glyph table.
pub const START_FONT: usize = 0x50;
/// Bytes in the glyph table: sixteen glyphs of five rows.
pub const FONT_SIZE: usize = 80;
/// The flag register VF.
pub const VF: usize = 15;

/// Resolutions of the two instructions whose behaviour differs between
/// historical machines.
#[derive(Clone, Copy, Debug, PartialEq, Eq, Structural)]
pub struct Quirks {
    /// 8XY6 / 8XYE shift VY into VX (true) or shift VX in place (false).
    pub shift_uses_vy: bool,
    /// FX55 / FX65 leave I just past the transferred block (true) or leave I
    /// unchanged (false).
    pub increment_index: bool,
}

impl Quirks {
    pub open spec fn standard_spec() -> Quirks {
        Quirks { shift_uses_vy: false, increment_index: true }
    }

    /// Shift VX in place; advance I past the transferred block.
    pub fn standard() -> (q: Quirks)
        ensures
            q == Quirks::standard_spec(),
    {
        Quirks { shift_uses_vy: false, increment_index: true }
    }
}

/// The whole observable state of the machine.
pub struct MachineState {
    pub mem: Seq<u8>,
    pub reg: Seq<u8>,
    /// Return addresses, the most recent last.
    pub stack: Seq<u16>,
    pub index: u16,
    pub pc: u16,
    /// Row-major pixels, `WIDTH` per row.
    pub gfx: Seq<bool>,
    /// The framebuffer changed since a consumer last took it.
    pub draw_flag: bool,
    pub keys: Seq<bool>,
    pub delay_timer: u8,
    pub sound_timer: u8,
    /// `Some(x)`: a key wait for register VX is pending; the next step does
    /// not fetch but checks the keys again.
    pub awaiting: Option<u8>,
    pub quirks: Quirks,
    /// The program image last loaded; a reset copies it back to 0x200.
    pub program: Seq<u8>,
}

impl MachineState {
    pub open spec fn wf(self) -> bool {
        &&& self.mem.len() == MEM_SIZE
        &&& self.reg.len() == N_REG
        &&& self.stack.len() <= STACK_SIZE
        &&& self.gfx.len() == GFX_SIZE
        &&& self.keys.len() == N_KEY
        &&& self.awaiting matches Some(x) ==> x < N_REG
        &&& self.program.len() <= MEM_SIZE - START_ROM
    }

    /// The program counter moved on by `k` bytes (modulo 2^16).
    pub open spec fn advance(self, k: int) -> MachineState {
        MachineState { pc: ((self.pc + k) % 0x10000) as u16, ..self }
    }

    pub open spec fn with_reg(self, x: int, v: u8) -> MachineState {
        MachineState { reg: self.reg.update(x, v), ..self }
    }

    pub open spec fn with_pc(self, pc: u16) -> MachineState {
        MachineState { pc, ..self }
    }

    pub open spec fn with_index(self, index: u16) -> MachineState {
        MachineState { index, ..self }
    }

    /// Key `k` is a valid key index and is held.
    pub open spec fn key_held(self, k: int) -> bool {
        0 <= k < N_KEY && self.keys[k]
    }

    /// The instruction word at the program counter.
    pub open spec fn fetched(self) -> u16 {
        (self.mem[self.pc as int] as u16 * 256 + self.mem[self.pc + 1]) as u16
    }
}

/// Moves on by one instruction, or by two when `cond` holds.
pub open spec fn skip_if(m: MachineState, cond: bool) -> MachineState {
    m.advance(if cond { 4 } else { 2 })
}

/// `k` is the lowest-indexed held key.
pub open spec fn is_lowest_held(keys: Seq<bool>, k: int) -> bool {
    &&& 0 <= k < N_KEY
    &&& keys[k]
    &&& forall|j: int| 0 <= j < k ==> !keys[j]
}

pub open spec fn some_key_held(keys: Seq<bool>) -> bool {
    exists|k: int| 0 <= k < N_KEY && keys[k]
}

pub open spec fn lowest_held(keys: Seq<bool>) -> int {
    choose|k: int| is_lowest_held(keys, k)
}

/// The key wait for register VX: with a key held, VX receives the lowest held
/// key and execution moves on; otherwise the wait stays pending.
pub open spec fn wait_key(m: MachineState, x: int) -> MachineState {
    if some_key_held(m.keys) {
        MachineState { awaiting: None, ..m.with_reg(x, lowest_held(m.keys) as u8) }.advance(2)
    } else {
        MachineState { awaiting: Some(x as u8), ..m }
    }
}

/// Bit `j` of a sprite row, counted from the most significant bit.
pub open spec fn sprite_bit(row: u8, j: int) -> bool {
    row & (0x80u8 >> (j as u8)) != 0
}

/// The sprite of `n` rows read from memory at I, drawn at (`vx`, `vy`), sets
/// the pixel at column `col` and row `row`.
pub open spec fn sprite_covers(m: MachineState, vx: int, vy: int, n: int, col: int, row: int) -> bool {
    &&& vx <= col < vx + 8
    &&& vy <= row < vy + n
    &&& sprite_bit(m.mem[m.index + (row - vy)], col - vx)
}

pub open spec fn pixel_covered(m: MachineState, vx: int, vy: int, n: int, p: int) -> bool {
    sprite_covers(m, vx, vy, n, p % (WIDTH as int), p / (WIDTH as int))
}

/// The framebuffer after XOR-ing in the sprite. Pixels past the right or
/// bottom edge are dropped.
pub open spec fn drawn_gfx(m: MachineState, vx: int, vy: int, n: int) -> Seq<bool> {
    Seq::new(GFX_SIZE as nat, |p: int| m.gfx[p] != pixel_covered(m, vx, vy, n, p))
}

/// Drawing the sprite turns some set pixel off.
pub open spec fn collides(m: MachineState, vx: int, vy: int, n: int) -> bool {
    exists|p: int| 0 <= p < GFX_SIZE && #[trigger] pixel_covered(m, vx, vy, n, p) && m.gfx[p]
}

/// The state after drawing the `n`-row sprite at (VX mod 64, VY mod 32).
pub open spec fn draw(m: MachineState, x: int, y: int, n: int) -> MachineState {
    let vx = m.reg[x] as int % (WIDTH as int);
    let vy = m.reg[y] as int % (HEIGHT as int);
    MachineState {
        gfx: drawn_gfx(m, vx, vy, n),
        draw_flag: true,
        ..m.with_reg(VF as int, if collides(m, vx, vy, n) { 1 } else { 0 })
    }.advance(2)
}

/// Memory with V0..=VX written from address I on.
pub open spec fn stored_mem(m: MachineState, x: int) -> Seq<u8> {
    Seq::new(
        MEM_SIZE as nat,
        |a: int| if m.index <= a <= m.index + x { m.reg[a - m.index] } else { m.mem[a] },
    )
}

/// Registers with V0..=VX read from memory at address I on.
pub open spec fn loaded_reg(m: MachineState, x: int) -> Seq<u8> {
    Seq::new(N_REG as nat, |r: int| if r <= x { m.mem[m.index + r] } else { m.reg[r] })
}

/// I after a block transfer of V0..=VX.
pub open spec fn index_after_transfer(m: MachineState, x: int) -> u16 {
    if m.quirks.increment_index {
        (m.index + x + 1) as u16
    } else {
        m.index
    }
}

/// V0..=VX stored in memory from I on, I then moved as the quirks say.
pub open spec fn store_block(m: MachineState, x: int) -> MachineState {
    MachineState { mem: stored_mem(m, x), ..m.with_index(index_after_transfer(m, x)) }
}

/// V0..=VX loaded from memory at I on, I then moved as the quirks say.
pub open spec fn load_block(m: MachineState, x: int) -> MachineState {
    MachineState { reg: loaded_reg(m, x), ..m.with_index(index_after_transfer(m, x)) }
}

/// The value a shift instruction shifts.
pub open spec fn shift_source(m: MachineState, x: int, y: int) -> u8 {
    if m.quirks.shift_uses_vy {
        m.reg[y]
    } else {
        m.reg[x]
    }
}

pub open spec fn flag(b: bool) -> u8 {
    if b {
        1
    } else {
        0
    }
}

/// What executing `ins` does to `m`. `random` is the byte that CXNN masks.
pub open spec fn exec_spec(m: MachineState, ins: Instruction, random: u8) -> Result<MachineState, Fault> {
    match ins {
        Instruction::ClearScreen => Ok(
            MachineState { gfx: Seq::new(GFX_SIZE as nat, |p: int| false), draw_flag: true, ..m }.advance(2),
        ),
        Instruction::Return => if m.stack.len() == 0 {
            Err(Fault::CallStackUnderflow)
        } else {
            Ok(MachineState { stack: m.stack.drop_last(), ..m.with_pc(m.stack.last()) }.advance(2))
        },
        Instruction::Jump(a) => Ok(m.with_pc(a)),
        Instruction::Call(a) => if m.stack.len() >= STACK_SIZE {
            Err(Fault::CallStackOverflow)
        } else {
            Ok(MachineState { stack: m.stack.push(m.pc), ..m.with_pc(a) })
        },
        Instruction::SkipEqImm(x, nn) => Ok(skip_if(m, m.reg[x as int] == nn)),
        Instruction::SkipNeImm(x, nn) => Ok(skip_if(m, m.reg[x as int] != nn)),
        Instruction::SkipEqReg(x, y) => Ok(skip_if(m, m.reg[x as int] == m.reg[y as int])),
        Instruction::LoadImm(x, nn) => Ok(m.with_reg(x as int, nn).advance(2)),
        Instruction::AddImm(x, nn) => Ok(
            m.with_reg(x as int, ((m.reg[x as int] + nn) % 256) as u8).advance(2),
        ),
        Instruction::Copy(x, y) => Ok(m.with_reg(x as int, m.reg[y as int]).advance(2)),
        Instruction::Or(x, y) => Ok(m.with_reg(x as int, m.reg[x as int] | m.reg[y as int]).advance(2)),
        Instruction::And(x, y) => Ok(m.with_reg(x as int, m.reg[x as int] & m.reg[y as int]).advance(2)),
        Instruction::Xor(x, y) => Ok(m.with_reg(x as int, m.reg[x as int] ^ m.reg[y as int]).advance(2)),
        Instruction::AddReg(x, y) => {
            let sum = m.reg[x as int] + m.reg[y as int];
            Ok(m.with_reg(x as int, (sum % 256) as u8).with_reg(VF as int, flag(sum >= 256)).advance(2))
        },
        Instruction::Sub(x, y) => {
            let (vx, vy) = (m.reg[x as int], m.reg[y as int]);
            Ok(m.with_reg(x as int, ((vx - vy) % 256) as u8).with_reg(VF as int, flag(vx >= vy)).advance(2))
        },
        Instruction::ShiftRight(x, y) => {
            let v = shift_source(m, x as int, y as int);
            Ok(m.with_reg(x as int, v / 2).with_reg(VF as int, v % 2).advance(2))
        },
        Instruction::SubRev(x, y) => {
            let (vx, vy) = (m.reg[x as int], m.reg[y as int]);
            Ok(m.with_reg(x as int, ((vy - vx) % 256) as u8).with_reg(VF as int, flag(vy >= vx)).advance(2))
        },
        Instruction::ShiftLeft(x, y) => {
            let v = shift_source(m, x as int, y as int);
            Ok(m.with_reg(x as int, ((v * 2) % 256) as u8).with_reg(VF as int, v / 128).advance(2))
        },
        Instruction::SkipNeReg(x, y) => Ok(skip_if(m, m.reg[x as int] != m.reg[y as int])),
        Instruction::SetIndex(a) => Ok(m.with_index(a).advance(2)),
        Instruction::JumpV0(a) => Ok(m.with_pc((a + m.reg[0]) as u16)),
        Instruction::Random(x, nn) => Ok(m.with_reg(x as int, random & nn).advance(2)),
        Instruction::Draw(x, y, n) => if n > 0 && m.index + n > MEM_SIZE {
            Err(Fault::MemoryFault(m.index))
        } else {
            Ok(draw(m, x as int, y as int, n as int))
        },
        Instruction::SkipKeyDown(x) => Ok(skip_if(m, m.key_held(m.reg[x as int] as int))),
        Instruction::SkipKeyUp(x) => Ok(skip_if(m, !m.key_held(m.reg[x as int] as int))),
        Instruction::ReadDelay(x) => Ok(m.with_reg(x as int, m.delay_timer).advance(2)),
        Instruction::WaitKey(x) => Ok(wait_key(m, x as int)),
        Instruction::SetDelay(x) => Ok(MachineState { delay_timer: m.reg[x as int], ..m }.advance(2)),
        Instruction::SetSound(x) => Ok(MachineState { sound_timer: m.reg[x as int], ..m }.advance(2)),
        Instruction::AddIndex(x) => Ok(
            m.with_index(((m.index + m.reg[x as int]) % 0x10000) as u16).advance(2),
        ),
        Instruction::FontChar(x) => Ok(
            m.with_index((START_FONT + m.reg[x as int] * 5) as u16).advance(2),
        ),
        Instruction::Bcd(x) => if m.index + 3 > MEM_SIZE {
            Err(Fault::MemoryFault(m.index))
        } else {
            let v = m.reg[x as int];
            let i = m.index as int;
            Ok(
                MachineState {
                    mem: m.mem.update(i, v / 100).update(i + 1, (v / 10) % 10).update(i + 2, v % 10),
                    ..m
                }.advance(2),
            )
        },
        Instruction::StoreRegs(x) => if m.index + x + 1 > MEM_SIZE {
            Err(Fault::MemoryFault(m.index))
        } else {
            Ok(store_block(m, x as int).advance(2))
        },
        Instruction::LoadRegs(x) => if m.index + x + 1 > MEM_SIZE {
            Err(Fault::MemoryFault(m.index))
        } else {
            Ok(load_block(m, x as int).advance(2))
        },
    }
}

/// The result of executing `ins` and the state after it: on a fault the state
/// is left as it was.
pub open spec fn run(m: MachineState, ins: Instruction, random: u8) -> (Result<(), Fault>, MachineState) {
    match exec_spec(m, ins, random) {
        Ok(m2) => (Ok(()), m2),
        Err(e) => (Err(e), m),
    }
}

/// One step of the machine: resume a pending key wait, or fetch the word at
/// the program counter, decode it and execute it.
pub open spec fn step_spec(m: MachineState, random: u8) -> Result<MachineState, Fault> {
    match m.awaiting {
        Some(x) => Ok(wait_key(m, x as int)),
        None => if m.pc + 1 >= MEM_SIZE {
            Err(Fault::MemoryFault(m.pc))
        } else {
            match decode_word(m.fetched()) {
                Ok(ins) => exec_spec(m, ins, random),
                Err(e) => Err(e),
            }
        },
    }
}

/// `step_spec` as a result and the state after it.
pub open spec fn step_run(m: MachineState, random: u8) -> (Result<(), Fault>, MachineState) {
    match step_spec(m, random) {
        Ok(m2) => (Ok(()), m2),
        Err(e) => (Err(e), m),
    }
}

/// Executing an instruction keeps the state well formed.
pub proof fn lemma_exec_wf(m: MachineState, ins: Instruction, random: u8)
    requires
        m.wf(),
        operands_in_range(ins),
    ensures
        exec_spec(m, ins, random) matches Ok(m2) ==> m2.wf(),
{
}

/// One decay tick of both timers.
pub open spec fn decay(m: MachineState) -> MachineState {
    MachineState {
        delay_timer: if m.delay_timer > 0 { (m.delay_timer - 1) as u8 } else { 0 },
        sound_timer: if m.sound_timer > 0 { (m.sound_timer - 1) as u8 } else { 0 },
        ..m
    }
}

} // verus!
