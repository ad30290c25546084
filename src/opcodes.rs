//! The instruction set, one method per instruction, and the fetch/decode/execute step.
use crate::decode::{decode, operands_in_range, Instruction};
use crate::fault::Fault;
use crate::machine::Chip8;
use crate::rng::random_byte;
use crate::semantics::{
    collides, drawn_gfx, exec_spec, lemma_exec_wf, is_lowest_held, lowest_held, pixel_covered, run, some_key_held,
    step_run, MachineState, GFX_SIZE, HEIGHT, MEM_SIZE, N_KEY, N_REG, VF, WIDTH,
};
use vstd::prelude::*;

verus! {

/// The instructions of the machine, each executed against the machine state
/// as `exec_spec` describes. Register operands are below 16.
pub trait InstructionSet: View<V = MachineState> + Sized {
    /// Clears the screen.
    fn process_00e0(&mut self)
        requires
            old(self)@.wf(),
        ensures
            exec_spec(old(self)@, Instruction::ClearScreen, 0) == Ok::<MachineState, Fault>(final(self)@),
    ;

    /// Returns from a subroutine.
    fn process_00ee(&mut self) -> (r: Result<(), Fault>)
        requires
            old(self)@.wf(),
        ensures
            (r, final(self)@) == run(old(self)@, Instruction::Return, 0),
    ;

    /// Jumps to NNN.
    fn process_1nnn(&mut self, nnn: u16)
        requires
            old(self)@.wf(),
            nnn < 4096,
        ensures
            exec_spec(old(self)@, Instruction::Jump(nnn), 0) == Ok::<MachineState, Fault>(final(self)@),
    ;

    /// Calls the subroutine at NNN.
    fn process_2nnn(&mut self, nnn: u16) -> (r: Result<(), Fault>)
        requires
            old(self)@.wf(),
            nnn < 4096,
        ensures
            (r, final(self)@) == run(old(self)@, Instruction::Call(nnn), 0),
    ;

    /// Skips the next instruction if VX == NN.
    fn process_3xnn(&mut self, x: usize, nn: u8)
        requires
            old(self)@.wf(),
            x < N_REG,
        ensures
            exec_spec(old(self)@, Instruction::SkipEqImm(x as u8, nn), 0) == Ok::<MachineState, Fault>(final(self)@),
    ;

    /// Skips the next instruction if VX != NN.
    fn process_4xnn(&mut self, x: usize, nn: u8)
        requires
            old(self)@.wf(),
            x < N_REG,
        ensures
            exec_spec(old(self)@, Instruction::SkipNeImm(x as u8, nn), 0) == Ok::<MachineState, Fault>(final(self)@),
    ;

    /// Skips the next instruction if VX == VY.
    fn process_5xy0(&mut self, x: usize, y: usize)
        requires
            old(self)@.wf(),
            x < N_REG,
            y < N_REG,
        ensures
            exec_spec(old(self)@, Instruction::SkipEqReg(x as u8, y as u8), 0) == Ok::<MachineState, Fault>(final(self)@),
    ;

    /// VX = NN.
    fn process_6xnn(&mut self, x: usize, nn: u8)
        requires
            old(self)@.wf(),
            x < N_REG,
        ensures
            exec_spec(old(self)@, Instruction::LoadImm(x as u8, nn), 0) == Ok::<MachineState, Fault>(final(self)@),
    ;

    /// VX += NN, wrapping; VF is not touched.
    fn process_7xnn(&mut self, x: usize, nn: u8)
        requires
            old(self)@.wf(),
            x < N_REG,
        ensures
            exec_spec(old(self)@, Instruction::AddImm(x as u8, nn), 0) == Ok::<MachineState, Fault>(final(self)@),
    ;

    /// VX = VY.
    fn process_8xy0(&mut self, x: usize, y: usize)
        requires
            old(self)@.wf(),
            x < N_REG,
            y < N_REG,
        ensures
            exec_spec(old(self)@, Instruction::Copy(x as u8, y as u8), 0) == Ok::<MachineState, Fault>(final(self)@),
    ;

    /// VX |= VY.
    fn process_8xy1(&mut self, x: usize, y: usize)
        requires
            old(self)@.wf(),
            x < N_REG,
            y < N_REG,
        ensures
            exec_spec(old(self)@, Instruction::Or(x as u8, y as u8), 0) == Ok::<MachineState, Fault>(final(self)@),
    ;

    /// VX &= VY.
    fn process_8xy2(&mut self, x: usize, y: usize)
        requires
            old(self)@.wf(),
            x < N_REG,
            y < N_REG,
        ensures
            exec_spec(old(self)@, Instruction::And(x as u8, y as u8), 0) == Ok::<MachineState, Fault>(final(self)@),
    ;

    /// VX ^= VY.
    fn process_8xy3(&mut self, x: usize, y: usize)
        requires
            old(self)@.wf(),
            x < N_REG,
            y < N_REG,
        ensures
            exec_spec(old(self)@, Instruction::Xor(x as u8, y as u8), 0) == Ok::<MachineState, Fault>(final(self)@),
    ;

    /// VX += VY; VF = 1 on carry, else 0.
    fn process_8xy4(&mut self, x: usize, y: usize)
        requires
            old(self)@.wf(),
            x < N_REG,
            y < N_REG,
        ensures
            exec_spec(old(self)@, Instruction::AddReg(x as u8, y as u8), 0) == Ok::<MachineState, Fault>(final(self)@),
    ;

    /// VX -= VY; VF = 0 on borrow, else 1.
    fn process_8xy5(&mut self, x: usize, y: usize)
        requires
            old(self)@.wf(),
            x < N_REG,
            y < N_REG,
        ensures
            exec_spec(old(self)@, Instruction::Sub(x as u8, y as u8), 0) == Ok::<MachineState, Fault>(final(self)@),
    ;

    /// Shifts right by one; VF = the bit shifted out.
    fn process_8xy6(&mut self, x: usize, y: usize)
        requires
            old(self)@.wf(),
            x < N_REG,
            y < N_REG,
        ensures
            exec_spec(old(self)@, Instruction::ShiftRight(x as u8, y as u8), 0) == Ok::<MachineState, Fault>(final(self)@),
    ;

    /// VX = VY - VX; VF = 0 on borrow, else 1.
    fn process_8xy7(&mut self, x: usize, y: usize)
        requires
            old(self)@.wf(),
            x < N_REG,
            y < N_REG,
        ensures
            exec_spec(old(self)@, Instruction::SubRev(x as u8, y as u8), 0) == Ok::<MachineState, Fault>(final(self)@),
    ;

    /// Shifts left by one; VF = the bit shifted out.
    fn process_8xye(&mut self, x: usize, y: usize)
        requires
            old(self)@.wf(),
            x < N_REG,
            y < N_REG,
        ensures
            exec_spec(old(self)@, Instruction::ShiftLeft(x as u8, y as u8), 0) == Ok::<MachineState, Fault>(final(self)@),
    ;

    /// Skips the next instruction if VX != VY.
    fn process_9xy0(&mut self, x: usize, y: usize)
        requires
            old(self)@.wf(),
            x < N_REG,
            y < N_REG,
        ensures
            exec_spec(old(self)@, Instruction::SkipNeReg(x as u8, y as u8), 0) == Ok::<MachineState, Fault>(final(self)@),
    ;

    /// I = NNN.
    fn process_annn(&mut self, nnn: u16)
        requires
            old(self)@.wf(),
            nnn < 4096,
        ensures
            exec_spec(old(self)@, Instruction::SetIndex(nnn), 0) == Ok::<MachineState, Fault>(final(self)@),
    ;

    /// Jumps to NNN + V0.
    fn process_bnnn(&mut self, nnn: u16)
        requires
            old(self)@.wf(),
            nnn < 4096,
        ensures
            exec_spec(old(self)@, Instruction::JumpV0(nnn), 0) == Ok::<MachineState, Fault>(final(self)@),
    ;

    /// VX = `random` & NN.
    fn process_cxnn(&mut self, x: usize, nn: u8, random: u8)
        requires
            old(self)@.wf(),
            x < N_REG,
        ensures
            exec_spec(old(self)@, Instruction::Random(x as u8, nn), random) == Ok::<MachineState, Fault>(final(self)@),
    ;

    /// Draws the N-row sprite at I at (VX mod 64, VY mod 32); VF = collision.
    fn process_dxyn(&mut self, x: usize, y: usize, n: u8) -> (r: Result<(), Fault>)
        requires
            old(self)@.wf(),
            x < N_REG,
            y < N_REG,
            n < 16,
        ensures
            (r, final(self)@) == run(old(self)@, Instruction::Draw(x as u8, y as u8, n), 0),
    ;

    /// Skips the next instruction if key VX is held.
    fn process_ex9e(&mut self, x: usize)
        requires
            old(self)@.wf(),
            x < N_REG,
        ensures
            exec_spec(old(self)@, Instruction::SkipKeyDown(x as u8), 0) == Ok::<MachineState, Fault>(final(self)@),
    ;

    /// Skips the next instruction if key VX is not held.
    fn process_exa1(&mut self, x: usize)
        requires
            old(self)@.wf(),
            x < N_REG,
        ensures
            exec_spec(old(self)@, Instruction::SkipKeyUp(x as u8), 0) == Ok::<MachineState, Fault>(final(self)@),
    ;

    /// VX = delay timer.
    fn process_fx07(&mut self, x: usize)
        requires
            old(self)@.wf(),
            x < N_REG,
        ensures
            exec_spec(old(self)@, Instruction::ReadDelay(x as u8), 0) == Ok::<MachineState, Fault>(final(self)@),
    ;

    /// Waits for a key: VX = lowest held key, or the wait stays pending.
    fn process_fx0a(&mut self, x: usize)
        requires
            old(self)@.wf(),
            x < N_REG,
        ensures
            exec_spec(old(self)@, Instruction::WaitKey(x as u8), 0) == Ok::<MachineState, Fault>(final(self)@),
    ;

    /// Delay timer = VX.
    fn process_fx15(&mut self, x: usize)
        requires
            old(self)@.wf(),
            x < N_REG,
        ensures
            exec_spec(old(self)@, Instruction::SetDelay(x as u8), 0) == Ok::<MachineState, Fault>(final(self)@),
    ;

    /// Sound timer = VX.
    fn process_fx18(&mut self, x: usize)
        requires
            old(self)@.wf(),
            x < N_REG,
        ensures
            exec_spec(old(self)@, Instruction::SetSound(x as u8), 0) == Ok::<MachineState, Fault>(final(self)@),
    ;

    /// I += VX, wrapping; VF is not touched.
    fn process_fx1e(&mut self, x: usize)
        requires
            old(self)@.wf(),
            x < N_REG,
        ensures
            exec_spec(old(self)@, Instruction::AddIndex(x as u8), 0) == Ok::<MachineState, Fault>(final(self)@),
    ;

    /// I = address of the glyph for digit VX.
    fn process_fx29(&mut self, x: usize)
        requires
            old(self)@.wf(),
            x < N_REG,
        ensures
            exec_spec(old(self)@, Instruction::FontChar(x as u8), 0) == Ok::<MachineState, Fault>(final(self)@),
    ;

    /// Writes the decimal digits of VX at I, I+1, I+2.
    fn process_fx33(&mut self, x: usize) -> (r: Result<(), Fault>)
        requires
            old(self)@.wf(),
            x < N_REG,
        ensures
            (r, final(self)@) == run(old(self)@, Instruction::Bcd(x as u8), 0),
    ;

    /// Stores V0..=VX in memory from I on.
    fn process_fx55(&mut self, x: usize) -> (r: Result<(), Fault>)
        requires
            old(self)@.wf(),
            x < N_REG,
        ensures
            (r, final(self)@) == run(old(self)@, Instruction::StoreRegs(x as u8), 0),
    ;

    /// Loads V0..=VX from memory at I on.
    fn process_fx65(&mut self, x: usize) -> (r: Result<(), Fault>)
        requires
            old(self)@.wf(),
            x < N_REG,
        ensures
            (r, final(self)@) == run(old(self)@, Instruction::LoadRegs(x as u8), 0),
    ;
}

/// The sprite pixel `p` is covered and was drawn before row `i`, column `j` of
/// the sprite.
spec fn drawn_before(m: MachineState, vx: int, vy: int, n: int, p: int, i: int, j: int) -> bool {
    &&& pixel_covered(m, vx, vy, n, p)
    &&& (p / (WIDTH as int) < vy + i || (p / (WIDTH as int) == vy + i && p % (WIDTH as int) < vx + j))
}

/// A collision found among the pixels drawn before (`i`, `j`) is still among
/// those drawn before a later position (`i2`, `j2`).
proof fn lemma_collision_kept(
    m: MachineState,
    vx: int,
    vy: int,
    n: int,
    i: int,
    j: int,
    i2: int,
    j2: int,
)
    requires
        i < i2 || (i == i2 && j <= j2) || (i2 == i + 1 && j == 8 && j2 == 0),
        exists|p: int| 0 <= p < GFX_SIZE && #[trigger] drawn_before(m, vx, vy, n, p, i, j) && m.gfx[p],
    ensures
        exists|p: int| 0 <= p < GFX_SIZE && #[trigger] drawn_before(m, vx, vy, n, p, i2, j2) && m.gfx[p],
{
    let w = choose|p: int| 0 <= p < GFX_SIZE && #[trigger] drawn_before(m, vx, vy, n, p, i, j) && m.gfx[p];
    assert(drawn_before(m, vx, vy, n, w, i2, j2));
}

proof fn lemma_pixel_position(col: int, row: int)
    requires
        0 <= col < WIDTH,
        0 <= row,
    ensures
        (col + row * WIDTH) % (WIDTH as int) == col,
        (col + row * WIDTH) / (WIDTH as int) == row,
{
    vstd::arithmetic::div_mod::lemma_fundamental_div_mod_converse(
        col + row * WIDTH,
        WIDTH as int,
        row,
        col,
    );
}

proof fn lemma_position_unique(p: int, col: int, row: int)
    requires
        0 <= p,
        p % (WIDTH as int) == col,
        p / (WIDTH as int) == row,
    ensures
        p == col + row * WIDTH,
{
    vstd::arithmetic::div_mod::lemma_fundamental_div_mod(p, WIDTH as int);
}

proof fn lemma_lowest_held(keys: Seq<bool>, k: int)
    requires
        is_lowest_held(keys, k),
    ensures
        lowest_held(keys) == k,
        some_key_held(keys),
{
    let c = lowest_held(keys);
    assert(is_lowest_held(keys, c));
    if c < k {
        assert(!keys[c]);
    } else if k < c {
        assert(!keys[k]);
    }
}

impl InstructionSet for Chip8 {
    fn process_00e0(&mut self) {
        self.reset_gfx();
        self.set_draw_flag();
        self.next_instruction();
    }

    fn process_00ee(&mut self) -> (r: Result<(), Fault>) {
        let a = match self.stack_pop() {
            Ok(a) => a,
            Err(e) => return Err(e),
        };
        self.set_program_counter(a);
        self.next_instruction();
        Ok(())
    }

    fn process_1nnn(&mut self, nnn: u16) {
        self.set_program_counter(nnn);
    }

    fn process_2nnn(&mut self, nnn: u16) -> (r: Result<(), Fault>) {
        match self.stack() {
            Ok(()) => {},
            Err(e) => return Err(e),
        }
        self.set_program_counter(nnn);
        Ok(())
    }

    fn process_3xnn(&mut self, x: usize, nn: u8) {
        if self.register(x) == nn {
            self.next_instruction();
        }
        self.next_instruction();
    }

    fn process_4xnn(&mut self, x: usize, nn: u8) {
        if self.register(x) != nn {
            self.next_instruction();
        }
        self.next_instruction();
    }

    fn process_5xy0(&mut self, x: usize, y: usize) {
        if self.register(x) == self.register(y) {
            self.next_instruction();
        }
        self.next_instruction();
    }

    fn process_6xnn(&mut self, x: usize, nn: u8) {
        self.set_register(x, nn);
        self.next_instruction();
    }

    fn process_7xnn(&mut self, x: usize, nn: u8) {
        let v = self.register(x).wrapping_add(nn);
        self.set_register(x, v);
        self.next_instruction();
    }

    fn process_8xy0(&mut self, x: usize, y: usize) {
        let v = self.register(y);
        self.set_register(x, v);
        self.next_instruction();
    }

    fn process_8xy1(&mut self, x: usize, y: usize) {
        let v = self.register(x) | self.register(y);
        self.set_register(x, v);
        self.next_instruction();
    }

    fn process_8xy2(&mut self, x: usize, y: usize) {
        let v = self.register(x) & self.register(y);
        self.set_register(x, v);
        self.next_instruction();
    }

    fn process_8xy3(&mut self, x: usize, y: usize) {
        let v = self.register(x) ^ self.register(y);
        self.set_register(x, v);
        self.next_instruction();
    }

    fn process_8xy4(&mut self, x: usize, y: usize) {
        let (vx, vy) = (self.register(x), self.register(y));
        self.set_register(x, vx.wrapping_add(vy));
        self.set_register(VF, if vx as u16 + vy as u16 > 0xFF { 1 } else { 0 });
        self.next_instruction();
    }

    fn process_8xy5(&mut self, x: usize, y: usize) {
        let (vx, vy) = (self.register(x), self.register(y));
        self.set_register(x, vx.wrapping_sub(vy));
        self.set_register(VF, if vx >= vy { 1 } else { 0 });
        self.next_instruction();
    }

    fn process_8xy6(&mut self, x: usize, y: usize) {
        let v = if self.quirks().shift_uses_vy { self.register(y) } else { self.register(x) };
        self.set_register(x, v >> 1);
        self.set_register(VF, v & 1);
        assert(v >> 1 == v / 2 && v & 1 == v % 2) by (bit_vector);
        self.next_instruction();
    }

    fn process_8xy7(&mut self, x: usize, y: usize) {
        let (vx, vy) = (self.register(x), self.register(y));
        self.set_register(x, vy.wrapping_sub(vx));
        self.set_register(VF, if vy >= vx { 1 } else { 0 });
        self.next_instruction();
    }

    fn process_8xye(&mut self, x: usize, y: usize) {
        let v = if self.quirks().shift_uses_vy { self.register(y) } else { self.register(x) };
        self.set_register(x, v << 1);
        self.set_register(VF, v >> 7);
        assert(v << 1 == (v * 2) % 256 && v >> 7 == v / 128) by (bit_vector);
        self.next_instruction();
    }

    fn process_9xy0(&mut self, x: usize, y: usize) {
        if self.register(x) != self.register(y) {
            self.next_instruction();
        }
        self.next_instruction();
    }

    fn process_annn(&mut self, nnn: u16) {
        self.set_index(nnn);
        self.next_instruction();
    }

    fn process_bnnn(&mut self, nnn: u16) {
        let target = nnn + self.register(0) as u16;
        self.set_program_counter(target);
    }

    fn process_cxnn(&mut self, x: usize, nn: u8, random: u8) {
        self.set_register(x, random & nn);
        self.next_instruction();
    }

    fn process_dxyn(&mut self, x: usize, y: usize, n: u8) -> (r: Result<(), Fault>) {
        let ghost m0 = self@;
        let vx = (self.register(x) % (WIDTH as u8)) as usize;
        let vy = (self.register(y) % (HEIGHT as u8)) as usize;
        let n = n as usize;
        if n > 0 && self.index() as usize + n > MEM_SIZE {
            return Err(Fault::MemoryFault(self.index()));
        }
        let mut collided = false;
        let mut i: usize = 0;
        while i < n
            invariant
                0 <= i <= n < 16,
                vx < WIDTH,
                vy < HEIGHT,
                vx == m0.reg[x as int] as int % (WIDTH as int),
                vy == m0.reg[y as int] as int % (HEIGHT as int),
                m0.wf(),
                n == 0 || m0.index + n <= MEM_SIZE,
                self@ == (MachineState { gfx: self@.gfx, draw_flag: self@.draw_flag, ..m0 }),
                self@.gfx.len() == GFX_SIZE,
                forall|p: int|
                    0 <= p < GFX_SIZE ==> #[trigger] self@.gfx[p] == (m0.gfx[p] != drawn_before(
                        m0, vx as int, vy as int, n as int, p, i as int, 0)),
                collided ==> exists|p: int|
                    0 <= p < GFX_SIZE && #[trigger] drawn_before(m0, vx as int, vy as int, n as int, p, i as int, 0)
                        && m0.gfx[p],
                !collided ==> forall|p: int|
                    0 <= p < GFX_SIZE && #[trigger] drawn_before(m0, vx as int, vy as int, n as int, p, i as int, 0)
                        ==> !m0.gfx[p],
            decreases n - i,
        {
            let row = match self.memory_at_index(i) {
                Ok(b) => b,
                Err(e) => return Err(e),
            };
            let mut j: usize = 0;
            while j < 8
                invariant
                    0 <= i < n < 16,
                    0 <= j <= 8,
                    vx < WIDTH,
                    vy < HEIGHT,
                    m0.wf(),
                    m0.index + n <= MEM_SIZE,
                    row == m0.mem[m0.index + i],
                    self@ == (MachineState { gfx: self@.gfx, draw_flag: self@.draw_flag, ..m0 }),
                    self@.gfx.len() == GFX_SIZE,
                    forall|p: int|
                        0 <= p < GFX_SIZE ==> #[trigger] self@.gfx[p] == (m0.gfx[p] != drawn_before(
                            m0, vx as int, vy as int, n as int, p, i as int, j as int)),
                        collided ==> exists|p: int|
                        0 <= p < GFX_SIZE && #[trigger] drawn_before(
                            m0, vx as int, vy as int, n as int, p, i as int, j as int)
                            && m0.gfx[p],
                    !collided ==> forall|p: int|
                        0 <= p < GFX_SIZE && #[trigger] drawn_before(
                            m0, vx as int, vy as int, n as int, p, i as int, j as int)
                            ==> !m0.gfx[p],
                decreases 8 - j,
            {
                let ghost was_collided = collided;
                if vx + j < WIDTH && vy + i < HEIGHT && row & (0x80u8 >> j as u8) != 0 {
                    let dst = (vx + j) + (vy + i) * WIDTH;
                    proof {
                        lemma_pixel_position((vx + j) as int, (vy + i) as int);
                    }
                    let old_pixel = self.gfx(dst);
                    if old_pixel {
                        collided = true;
                    }
                    self.set_gfx(dst, !old_pixel);
                    assert forall|p: int| 0 <= p < GFX_SIZE implies #[trigger] drawn_before(
                        m0, vx as int, vy as int, n as int, p, i as int, j + 1)
                        == (drawn_before(m0, vx as int, vy as int, n as int, p, i as int, j as int)
                        || p == dst) by {
                        if p % (WIDTH as int) == vx + j && p / (WIDTH as int) == vy + i {
                            lemma_position_unique(p, (vx + j) as int, (vy + i) as int);
                        }
                    }
                    assert(!drawn_before(m0, vx as int, vy as int, n as int, dst as int, i as int, j as int));
                    assert(drawn_before(m0, vx as int, vy as int, n as int, dst as int, i as int, j + 1));
                    proof {
                        if was_collided {
                            lemma_collision_kept(
                                m0,
                                vx as int,
                                vy as int,
                                n as int,
                                i as int,
                                j as int,
                                i as int,
                                (j + 1) as int,
                            );
                        }
                    }
                } else {
                    assert forall|p: int| 0 <= p < GFX_SIZE implies #[trigger] drawn_before(
                        m0, vx as int, vy as int, n as int, p, i as int, j + 1)
                        == drawn_before(m0, vx as int, vy as int, n as int, p, i as int, j as int) by {
                        if p % (WIDTH as int) == vx + j && p / (WIDTH as int) == vy + i {
                            lemma_position_unique(p, (vx + j) as int, (vy + i) as int);
                        }
                    }
                    proof {
                        if collided {
                            lemma_collision_kept(
                                m0,
                                vx as int,
                                vy as int,
                                n as int,
                                i as int,
                                j as int,
                                i as int,
                                (j + 1) as int,
                            );
                        }
                    }
                }
                j += 1;
            }
            assert forall|p: int| 0 <= p < GFX_SIZE implies #[trigger] drawn_before(
                m0, vx as int, vy as int, n as int, p, i + 1, 0)
                == drawn_before(m0, vx as int, vy as int, n as int, p, i as int, 8) by {}
            proof {
                if collided {
                    lemma_collision_kept(m0, vx as int, vy as int, n as int, i as int, 8, (i + 1) as int, 0);
                }
            }
            i += 1;
        }
        assert forall|p: int| 0 <= p < GFX_SIZE implies #[trigger] drawn_before(
            m0, vx as int, vy as int, n as int, p, n as int, 0)
            == pixel_covered(m0, vx as int, vy as int, n as int, p) by {}
        assert(self@.gfx =~= drawn_gfx(m0, vx as int, vy as int, n as int));
        proof {
            if collided {
                let w = choose|p: int|
                    0 <= p < GFX_SIZE && #[trigger] drawn_before(m0, vx as int, vy as int, n as int, p, n as int, 0)
                        && m0.gfx[p];
                assert(pixel_covered(m0, vx as int, vy as int, n as int, w));
            } else {
                assert forall|p: int|
                    0 <= p < GFX_SIZE && #[trigger] pixel_covered(m0, vx as int, vy as int, n as int, p)
                    implies !m0.gfx[p] by {
                    assert(drawn_before(m0, vx as int, vy as int, n as int, p, n as int, 0));
                }
            }
        }
        assert(collided == collides(m0, vx as int, vy as int, n as int));
        self.set_register(VF, if collided { 1 } else { 0 });
        self.set_draw_flag();
        self.next_instruction();
        Ok(())
    }

    fn process_ex9e(&mut self, x: usize) {
        let k = self.register(x) as usize;
        if k < N_KEY && self.is_key_down(k) {
            self.next_instruction();
        }
        self.next_instruction();
    }

    fn process_exa1(&mut self, x: usize) {
        let k = self.register(x) as usize;
        if !(k < N_KEY && self.is_key_down(k)) {
            self.next_instruction();
        }
        self.next_instruction();
    }

    fn process_fx07(&mut self, x: usize) {
        let v = self.delay_timer();
        self.set_register(x, v);
        self.next_instruction();
    }

    fn process_fx0a(&mut self, x: usize) {
        let keys = self.keypad();
        let mut k: usize = 0;
        while k < N_KEY && !keys[k]
            invariant
                0 <= k <= N_KEY,
                keys@ == self@.keys,
                forall|j: int| 0 <= j < k ==> !keys@[j],
            decreases N_KEY - k,
        {
            k += 1;
        }
        if k < N_KEY {
            proof {
                lemma_lowest_held(keys@, k as int);
            }
            self.set_register(x, k as u8);
            self.set_awaiting(None);
            self.next_instruction();
        } else {
            self.set_awaiting(Some(x as u8));
        }
    }

    fn process_fx15(&mut self, x: usize) {
        let v = self.register(x);
        self.set_delay_timer(v);
        self.next_instruction();
    }

    fn process_fx18(&mut self, x: usize) {
        let v = self.register(x);
        self.set_sound_timer(v);
        self.next_instruction();
    }

    fn process_fx1e(&mut self, x: usize) {
        let v = self.register(x) as u16;
        self.add_index(v);
        self.next_instruction();
    }

    fn process_fx29(&mut self, x: usize) {
        let v = self.register(x) as u16;
        self.set_index(0x50 + v * 5);
        self.next_instruction();
    }

    fn process_fx33(&mut self, x: usize) -> (r: Result<(), Fault>) {
        let i = self.index();
        if i as usize + 3 > MEM_SIZE {
            return Err(Fault::MemoryFault(i));
        }
        let v = self.register(x);
        let _ = self.set_memory_at_index(0, v / 100);
        let _ = self.set_memory_at_index(1, (v / 10) % 10);
        let _ = self.set_memory_at_index(2, v % 10);
        self.next_instruction();
        Ok(())
    }

    fn process_fx55(&mut self, x: usize) -> (r: Result<(), Fault>) {
        match self.copy_n_reg_to_mem_from_index(x) {
            Ok(()) => {},
            Err(e) => return Err(e),
        }
        self.next_instruction();
        Ok(())
    }

    fn process_fx65(&mut self, x: usize) -> (r: Result<(), Fault>) {
        match self.copy_mem_from_index_to_n_reg(x) {
            Ok(()) => {},
            Err(e) => return Err(e),
        }
        self.next_instruction();
        Ok(())
    }
}

impl Chip8 {
    /// Executes one decoded instruction. `random` is the byte that CXNN
    /// masks. On a fault the machine is left unchanged.
    pub fn execute(&mut self, ins: Instruction, random: u8) -> (r: Result<(), Fault>)
        requires
            old(self)@.wf(),
            operands_in_range(ins),
        ensures
            (r, final(self)@) == run(old(self)@, ins, random),
            final(self)@.wf(),
    {
        proof {
            lemma_exec_wf(self@, ins, random);
        }
        match ins {
            Instruction::ClearScreen => {
                self.process_00e0();
                Ok(())
            },
            Instruction::Return => self.process_00ee(),
            Instruction::Jump(a) => {
                self.process_1nnn(a);
                Ok(())
            },
            Instruction::Call(a) => self.process_2nnn(a),
            Instruction::SkipEqImm(x, nn) => {
                self.process_3xnn(x as usize, nn);
                Ok(())
            },
            Instruction::SkipNeImm(x, nn) => {
                self.process_4xnn(x as usize, nn);
                Ok(())
            },
            Instruction::SkipEqReg(x, y) => {
                self.process_5xy0(x as usize, y as usize);
                Ok(())
            },
            Instruction::LoadImm(x, nn) => {
                self.process_6xnn(x as usize, nn);
                Ok(())
            },
            Instruction::AddImm(x, nn) => {
                self.process_7xnn(x as usize, nn);
                Ok(())
            },
            Instruction::Copy(x, y) => {
                self.process_8xy0(x as usize, y as usize);
                Ok(())
            },
            Instruction::Or(x, y) => {
                self.process_8xy1(x as usize, y as usize);
                Ok(())
            },
            Instruction::And(x, y) => {
                self.process_8xy2(x as usize, y as usize);
                Ok(())
            },
            Instruction::Xor(x, y) => {
                self.process_8xy3(x as usize, y as usize);
                Ok(())
            },
            Instruction::AddReg(x, y) => {
                self.process_8xy4(x as usize, y as usize);
                Ok(())
            },
            Instruction::Sub(x, y) => {
                self.process_8xy5(x as usize, y as usize);
                Ok(())
            },
            Instruction::ShiftRight(x, y) => {
                self.process_8xy6(x as usize, y as usize);
                Ok(())
            },
            Instruction::SubRev(x, y) => {
                self.process_8xy7(x as usize, y as usize);
                Ok(())
            },
            Instruction::ShiftLeft(x, y) => {
                self.process_8xye(x as usize, y as usize);
                Ok(())
            },
            Instruction::SkipNeReg(x, y) => {
                self.process_9xy0(x as usize, y as usize);
                Ok(())
            },
            Instruction::SetIndex(a) => {
                self.process_annn(a);
                Ok(())
            },
            Instruction::JumpV0(a) => {
                self.process_bnnn(a);
                Ok(())
            },
            Instruction::Random(x, nn) => {
                self.process_cxnn(x as usize, nn, random);
                Ok(())
            },
            Instruction::Draw(x, y, n) => self.process_dxyn(x as usize, y as usize, n),
            Instruction::SkipKeyDown(x) => {
                self.process_ex9e(x as usize);
                Ok(())
            },
            Instruction::SkipKeyUp(x) => {
                self.process_exa1(x as usize);
                Ok(())
            },
            Instruction::ReadDelay(x) => {
                self.process_fx07(x as usize);
                Ok(())
            },
            Instruction::WaitKey(x) => {
                self.process_fx0a(x as usize);
                Ok(())
            },
            Instruction::SetDelay(x) => {
                self.process_fx15(x as usize);
                Ok(())
            },
            Instruction::SetSound(x) => {
                self.process_fx18(x as usize);
                Ok(())
            },
            Instruction::AddIndex(x) => {
                self.process_fx1e(x as usize);
                Ok(())
            },
            Instruction::FontChar(x) => {
                self.process_fx29(x as usize);
                Ok(())
            },
            Instruction::Bcd(x) => self.process_fx33(x as usize),
            Instruction::StoreRegs(x) => self.process_fx55(x as usize),
            Instruction::LoadRegs(x) => self.process_fx65(x as usize),
        }
    }

    /// One step: resumes a pending key wait, or fetches, decodes and executes
    /// the instruction at the program counter. `random` is the byte that
    /// CXNN masks. On a fault the machine is left unchanged.
    pub fn step(&mut self, random: u8) -> (r: Result<(), Fault>)
        requires
            old(self)@.wf(),
        ensures
            (r, final(self)@) == step_run(old(self)@, random),
            final(self)@.wf(),
    {
        if let Some(x) = self.awaiting_key() {
            self.process_fx0a(x as usize);
            return Ok(());
        }
        let w = match self.fetch() {
            Ok(w) => w,
            Err(e) => return Err(e),
        };
        let ins = match decode(w) {
            Ok(i) => i,
            Err(e) => return Err(e),
        };
        self.execute(ins, random)
    }

    /// One step with a fresh random byte for CXNN.
    pub fn tick(&mut self) -> (r: Result<(), Fault>)
        requires
            old(self)@.wf(),
        ensures
            exists|b: u8| (r, final(self)@) == #[trigger] step_run(old(self)@, b),
            final(self)@.wf(),
    {
        let b = random_byte();
        self.step(b)
    }
}

} // verus!
