//! The machine's storage and the primitive operations on it.
use crate::fault::Fault;
use crate::font::{glyph_table, glyphs};
use crate::semantics::{
    decay, load_block, loaded_reg, store_block, stored_mem, MachineState, Quirks, FONT_SIZE,
    GFX_SIZE, MEM_SIZE, N_KEY, N_REG, STACK_SIZE, START_FONT, START_ROM,
};
use vstd::prelude::*;

verus! {

/// A CHIP-8 machine: memory, registers, call stack, framebuffer, input latch
/// and timers.
#[derive(Debug)]
pub struct Chip8 {
    mem: [u8; MEM_SIZE],
    reg: [u8; N_REG],
    stack: Vec<u16>,
    index: u16,
    pc: u16,
    gfx: [bool; GFX_SIZE],
    draw_flag: bool,
    key: [bool; N_KEY],
    delay_timer: u8,
    sound_timer: u8,
    awaiting: Option<u8>,
    quirks: Quirks,
    program: Vec<u8>,
}

impl View for Chip8 {
    type V = MachineState;

    closed spec fn view(&self) -> MachineState {
        MachineState {
            mem: self.mem@,
            reg: self.reg@,
            stack: self.stack@,
            index: self.index,
            pc: self.pc,
            gfx: self.gfx@,
            draw_flag: self.draw_flag,
            keys: self.key@,
            delay_timer: self.delay_timer,
            sound_timer: self.sound_timer,
            awaiting: self.awaiting,
            quirks: self.quirks,
            program: self.program@,
        }
    }
}

/// Memory with the glyph table written at its address.
pub open spec fn with_glyphs(mem: Seq<u8>) -> Seq<u8> {
    Seq::new(
        MEM_SIZE as nat,
        |a: int|
            if START_FONT <= a < START_FONT + FONT_SIZE {
                glyphs()[a - START_FONT]
            } else {
                mem[a]
            },
    )
}

/// Memory with `program` written from 0x200 on.
pub open spec fn with_program(mem: Seq<u8>, program: Seq<u8>) -> Seq<u8> {
    Seq::new(
        MEM_SIZE as nat,
        |a: int|
            if START_ROM <= a < START_ROM + program.len() {
                program[a - START_ROM]
            } else {
                mem[a]
            },
    )
}

/// The largest program that fits in memory.
pub open spec fn fits(program: Seq<u8>) -> bool {
    program.len() <= MEM_SIZE - START_ROM
}

/// A fresh machine: glyph table loaded, everything else zero, the program
/// counter at 0x200.
pub open spec fn initial_state(quirks: Quirks) -> MachineState {
    MachineState {
        mem: with_glyphs(Seq::new(MEM_SIZE as nat, |a: int| 0u8)),
        reg: Seq::new(N_REG as nat, |r: int| 0u8),
        stack: Seq::empty(),
        index: 0,
        pc: START_ROM as u16,
        gfx: Seq::new(GFX_SIZE as nat, |p: int| false),
        draw_flag: false,
        keys: Seq::new(N_KEY as nat, |k: int| false),
        delay_timer: 0,
        sound_timer: 0,
        awaiting: None,
        quirks,
        program: Seq::empty(),
    }
}

/// `m` back in the state it had right after its program was loaded: memory
/// holds only the glyph table and the program image, and registers, stack,
/// framebuffer, keys and timers are cleared. Quirks and program are kept.
pub open spec fn reset_state(m: MachineState) -> MachineState {
    MachineState {
        mem: with_program(initial_state(m.quirks).mem, m.program),
        program: m.program,
        ..initial_state(m.quirks)
    }
}

/// What a renderer shows for each pixel: all bits set when on, zero when off.
pub open spec fn frame_pixels(gfx: Seq<bool>) -> Seq<u32> {
    Seq::new(gfx.len(), |p: int| if gfx[p] { 0xFFFF_FFFFu32 } else { 0u32 })
}

/// A fresh machine with the standard quirks and no program.
pub fn init() -> (r: Chip8)
    ensures
        r@ == initial_state(Quirks::standard_spec()),
        r@.wf(),
{
    Chip8::new(Quirks::standard())
}

impl Chip8 {
    /// A fresh machine with the given quirks and no program.
    pub fn new(quirks: Quirks) -> (r: Chip8)
        ensures
            r@ == initial_state(quirks),
            r@.wf(),
    {
        let mut c = Chip8 {
            mem: [0u8; MEM_SIZE],
            reg: [0u8; N_REG],
            stack: Vec::new(),
            index: 0,
            pc: START_ROM as u16,
            gfx: [false; GFX_SIZE],
            draw_flag: false,
            key: [false; N_KEY],
            delay_timer: 0,
            sound_timer: 0,
            awaiting: None,
            quirks,
            program: Vec::new(),
        };
        c.load_glyphs();
        assert(c@.mem =~= initial_state(quirks).mem);
        assert(c@.reg =~= initial_state(quirks).reg);
        assert(c@.gfx =~= initial_state(quirks).gfx);
        assert(c@.keys =~= initial_state(quirks).keys);
        c
    }

    /// A fresh machine with the standard quirks and `bytes` loaded at 0x200;
    /// `ProgramTooLarge` when the program does not fit.
    pub fn init(bytes: Vec<u8>) -> (r: Result<Chip8, Fault>)
        ensures
            fits(bytes@) ==> (r matches Ok(c) && c@ == (MachineState {
                mem: with_program(initial_state(Quirks::standard_spec()).mem, bytes@),
                program: bytes@,
                ..initial_state(Quirks::standard_spec())
            })),
            !fits(bytes@) ==> r == Err::<Chip8, Fault>(Fault::ProgramTooLarge),
            r matches Ok(c) ==> c@.wf(),
    {
        let mut c = init();
        match c.load_rom(bytes) {
            Ok(()) => Ok(c),
            Err(e) => Err(e),
        }
    }

    fn load_glyphs(&mut self)
        requires
            old(self)@.wf(),
        ensures
            final(self)@ == (MachineState { mem: with_glyphs(old(self)@.mem), ..old(self)@ }),
    {
        let font = glyph_table();
        let mut i: usize = 0;
        while i < FONT_SIZE
            invariant
                0 <= i <= FONT_SIZE,
                font@ == glyphs(),
                self@ == (MachineState { mem: self@.mem, ..old(self)@ }),
                self@.mem.len() == MEM_SIZE,
                forall|a: int|
                    0 <= a < MEM_SIZE ==> #[trigger] self@.mem[a] == if START_FONT <= a < START_FONT + i {
                        glyphs()[a - START_FONT]
                    } else {
                        old(self)@.mem[a]
                    },
            decreases FONT_SIZE - i,
        {
            self.mem[START_FONT + i] = font[i];
            i += 1;
        }
        assert(self@.mem =~= with_glyphs(old(self)@.mem));
    }

    /// Writes the program image into memory from 0x200 on.
    fn write_program(&mut self)
        requires
            old(self)@.wf(),
        ensures
            final(self)@ == (MachineState { mem: with_program(old(self)@.mem, old(self)@.program), ..old(self)@ }),
    {
        let mut i: usize = 0;
        while i < self.program.len()
            invariant
                0 <= i <= self@.program.len() <= MEM_SIZE - START_ROM,
                self@ == (MachineState { mem: self@.mem, ..old(self)@ }),
                self@.mem.len() == MEM_SIZE,
                forall|a: int|
                    0 <= a < MEM_SIZE ==> #[trigger] self@.mem[a] == if START_ROM <= a < START_ROM + i {
                        old(self)@.program[a - START_ROM]
                    } else {
                        old(self)@.mem[a]
                    },
            decreases self@.program.len() - i,
        {
            self.mem[START_ROM + i] = self.program[i];
            i += 1;
        }
        assert(self@.mem =~= with_program(old(self)@.mem, old(self)@.program));
    }

    /// Copies `bytes` into memory from 0x200 on and keeps it as the image
    /// that a reset restores; `ProgramTooLarge`, with the machine unchanged,
    /// when it does not fit.
    pub fn load_rom(&mut self, bytes: Vec<u8>) -> (r: Result<(), Fault>)
        requires
            old(self)@.wf(),
        ensures
            final(self)@.wf(),
            fits(bytes@) ==> (r is Ok) && final(self)@ == (MachineState {
                mem: with_program(old(self)@.mem, bytes@),
                program: bytes@,
                ..old(self)@
            }),
            !fits(bytes@) ==> r == Err::<(), Fault>(Fault::ProgramTooLarge) && final(self)@ == old(self)@,
    {
        if bytes.len() > MEM_SIZE - START_ROM {
            return Err(Fault::ProgramTooLarge);
        }
        self.program = bytes;
        self.write_program();
        Ok(())
    }

    /// Puts the machine back in the state it had right after its program was
    /// loaded: memory is cleared and the glyph table and program image are
    /// written again; registers, stack, index, framebuffer, keys and timers
    /// are cleared and the program counter is back at 0x200. The quirks are
    /// kept.
    pub fn reset(&mut self)
        requires
            old(self)@.wf(),
        ensures
            final(self)@ == reset_state(old(self)@),
            final(self)@.wf(),
    {
        self.mem = [0u8; MEM_SIZE];
        assert(self@.mem =~= Seq::new(MEM_SIZE as nat, |a: int| 0u8));
        self.load_glyphs();
        self.write_program();
        self.reg = [0u8; N_REG];
        self.stack = Vec::new();
        self.index = 0;
        self.pc = START_ROM as u16;
        self.reset_gfx();
        self.reset_keypad();
        self.delay_timer = 0;
        self.sound_timer = 0;
        self.awaiting = None;
        assert(self@.mem =~= reset_state(old(self)@).mem);
        assert(self@.reg =~= reset_state(old(self)@).reg);
        assert(self@.gfx =~= reset_state(old(self)@).gfx);
        assert(self@.keys =~= reset_state(old(self)@).keys);
        assert(self@.stack =~= reset_state(old(self)@).stack);
    }

    /// The input latch.
    pub fn keypad(&self) -> (r: [bool; N_KEY])
        ensures
            r@ == self@.keys,
    {
        self.key
    }

    /// Releases every key.
    pub fn reset_keypad(&mut self)
        ensures
            final(self)@ == (MachineState { keys: Seq::new(N_KEY as nat, |k: int| false), ..old(self)@ }),
    {
        self.key = [false; N_KEY];
        assert(self@.keys =~= Seq::new(N_KEY as nat, |k: int| false));
    }

    /// Marks `key` held.
    pub fn press_key(&mut self, key: usize)
        requires
            key < N_KEY,
        ensures
            final(self)@ == (MachineState { keys: old(self)@.keys.update(key as int, true), ..old(self)@ }),
    {
        self.key[key] = true;
    }

    /// Marks `key` released.
    pub fn release_key(&mut self, key: usize)
        requires
            key < N_KEY,
        ensures
            final(self)@ == (MachineState { keys: old(self)@.keys.update(key as int, false), ..old(self)@ }),
    {
        self.key[key] = false;
    }

    /// Whether `key` is held.
    pub fn is_key_down(&self, key: usize) -> (r: bool)
        requires
            key < N_KEY,
        ensures
            r == self@.keys[key as int],
    {
        self.key[key]
    }

    /// Latches the keys held this frame: exactly the keys listed in `held`
    /// are marked held; indices past the last key are ignored.
    pub fn latch_keys(&mut self, held: &Vec<usize>)
        ensures
            final(self)@ == (MachineState {
                keys: Seq::new(N_KEY as nat, |k: int| held@.contains(k as usize)),
                ..old(self)@
            }),
    {
        self.reset_keypad();
        let mut i: usize = 0;
        while i < held.len()
            invariant
                0 <= i <= held@.len(),
                self@ == (MachineState { keys: self@.keys, ..old(self)@ }),
                self@.keys.len() == N_KEY,
                forall|k: int|
                    0 <= k < N_KEY ==> #[trigger] self@.keys[k] == held@.subrange(0, i as int).contains(
                        k as usize,
                    ),
            decreases held@.len() - i,
        {
            let k = held[i];
            assert forall|j: int| 0 <= j < N_KEY implies #[trigger] held@.subrange(0, i + 1).contains(j as usize)
                == (held@.subrange(0, i as int).contains(j as usize) || k == j as usize) by {
                let s0 = held@.subrange(0, i as int);
                let s1 = held@.subrange(0, i + 1);
                assert(s1 =~= s0.push(k));
                if s0.contains(j as usize) {
                    let w = choose|w: int| 0 <= w < s0.len() && s0[w] == j as usize;
                    assert(s1[w] == j as usize);
                }
                if s1.contains(j as usize) && k != j as usize {
                    let w = choose|w: int| 0 <= w < s1.len() && s1[w] == j as usize;
                    assert(s0[w] == j as usize);
                }
                if k == j as usize {
                    assert(s1[i as int] == j as usize);
                }
            }
            if k < N_KEY {
                self.press_key(k);
            }
            i += 1;
        }
        assert(held@.subrange(0, held@.len() as int) =~= held@);
        assert(self@.keys =~= Seq::new(N_KEY as nat, |k: int| held@.contains(k as usize)));
    }

    /// The pixel at `position` (row-major).
    pub fn gfx(&self, position: usize) -> (r: bool)
        requires
            position < GFX_SIZE,
        ensures
            r == self@.gfx[position as int],
    {
        self.gfx[position]
    }

    /// Sets the pixel at `position` and marks the framebuffer changed.
    pub fn set_gfx(&mut self, position: usize, value: bool)
        requires
            position < GFX_SIZE,
        ensures
            final(self)@ == (MachineState {
                gfx: old(self)@.gfx.update(position as int, value),
                draw_flag: true,
                ..old(self)@
            }),
    {
        self.gfx[position] = value;
        self.draw_flag = true;
    }

    /// Marks the framebuffer changed.
    pub fn set_draw_flag(&mut self)
        ensures
            final(self)@ == (MachineState { draw_flag: true, ..old(self)@ }),
    {
        self.draw_flag = true;
    }

    /// Clears every pixel and the changed mark.
    pub fn reset_gfx(&mut self)
        ensures
            final(self)@ == (MachineState {
                gfx: Seq::new(GFX_SIZE as nat, |p: int| false),
                draw_flag: false,
                ..old(self)@
            }),
    {
        self.gfx = [false; GFX_SIZE];
        self.draw_flag = false;
        assert(self@.gfx =~= Seq::new(GFX_SIZE as nat, |p: int| false));
    }

    /// The framebuffer as renderer pixels; clears the changed mark.
    pub fn gfx_buffer(&mut self) -> (r: Vec<u32>)
        ensures
            r@ == frame_pixels(old(self)@.gfx),
            final(self)@ == (MachineState { draw_flag: false, ..old(self)@ }),
    {
        self.draw_flag = false;
        let mut out: Vec<u32> = Vec::with_capacity(GFX_SIZE);
        let mut p: usize = 0;
        while p < GFX_SIZE
            invariant
                0 <= p <= GFX_SIZE,
                self@ == (MachineState { draw_flag: false, ..old(self)@ }),
                self@.gfx.len() == GFX_SIZE,
                out@.len() == p,
                forall|q: int| 0 <= q < p ==> #[trigger] out@[q] == frame_pixels(self@.gfx)[q],
            decreases GFX_SIZE - p,
        {
            out.push(if self.gfx[p] { 0xFFFF_FFFFu32 } else { 0u32 });
            p += 1;
        }
        assert(out@ =~= frame_pixels(old(self)@.gfx));
        out
    }

    /// Same as `gfx_buffer`.
    pub fn get_gfx_buffer(&mut self) -> (r: Vec<u32>)
        ensures
            r@ == frame_pixels(old(self)@.gfx),
            final(self)@ == (MachineState { draw_flag: false, ..old(self)@ }),
    {
        self.gfx_buffer()
    }

    /// The frame, when it changed since it was last taken; taking it clears
    /// the changed mark.
    pub fn take_frame(&mut self) -> (r: Option<Vec<u32>>)
        ensures
            old(self)@.draw_flag ==> (r matches Some(f) && f@ == frame_pixels(old(self)@.gfx)),
            !old(self)@.draw_flag ==> (r is None),
            final(self)@ == (MachineState { draw_flag: false, ..old(self)@ }),
    {
        if self.draw_flag {
            Some(self.gfx_buffer())
        } else {
            None
        }
    }

    /// Whether the framebuffer changed since it was last taken.
    pub fn draw_flag(&self) -> (r: bool)
        ensures
            r == self@.draw_flag,
    {
        self.draw_flag
    }

    /// Same as `draw_flag`.
    pub fn get_draw_flag(&self) -> (r: bool)
        ensures
            r == self@.draw_flag,
    {
        self.draw_flag
    }

    /// One 60 Hz tick: each nonzero timer goes down by one. Returns whether
    /// the sound timer is still running, i.e. whether sound should play.
    pub fn update_timer(&mut self) -> (r: bool)
        ensures
            final(self)@ == decay(old(self)@),
            r == (final(self)@.sound_timer > 0),
    {
        if self.delay_timer > 0 {
            self.delay_timer -= 1;
        }
        if self.sound_timer > 0 {
            self.sound_timer -= 1;
        }
        self.sound_timer > 0
    }

    pub fn delay_timer(&self) -> (r: u8)
        ensures
            r == self@.delay_timer,
    {
        self.delay_timer
    }

    pub fn set_delay_timer(&mut self, value: u8)
        ensures
            final(self)@ == (MachineState { delay_timer: value, ..old(self)@ }),
    {
        self.delay_timer = value;
    }

    pub fn sound_timer(&self) -> (r: u8)
        ensures
            r == self@.sound_timer,
    {
        self.sound_timer
    }

    pub fn set_sound_timer(&mut self, value: u8)
        ensures
            final(self)@ == (MachineState { sound_timer: value, ..old(self)@ }),
    {
        self.sound_timer = value;
    }
    /// Pops the most recent return address; `CallStackUnderflow`, with the
    /// machine unchanged, when the stack is empty.
    pub fn stack_pop(&mut self) -> (r: Result<u16, Fault>)
        ensures
            old(self)@.stack.len() == 0 ==> r == Err::<u16, Fault>(Fault::CallStackUnderflow)
                && final(self)@ == old(self)@,
            old(self)@.stack.len() > 0 ==> r == Ok::<u16, Fault>(old(self)@.stack.last())
                && final(self)@ == (MachineState { stack: old(self)@.stack.drop_last(), ..old(self)@ }),
    {
        match self.stack.pop() {
            Some(a) => {
                assert(self@.stack =~= old(self)@.stack.drop_last());
                Ok(a)
            },
            None => Err(Fault::CallStackUnderflow),
        }
    }

    /// Pushes the program counter as a return address; `CallStackOverflow`,
    /// with the machine unchanged, when the stack is full.
    pub fn stack(&mut self) -> (r: Result<(), Fault>)
        requires
            old(self)@.wf(),
        ensures
            old(self)@.stack.len() >= STACK_SIZE ==> r == Err::<(), Fault>(Fault::CallStackOverflow)
                && final(self)@ == old(self)@,
            old(self)@.stack.len() < STACK_SIZE ==> (r is Ok) && final(self)@ == (MachineState {
                stack: old(self)@.stack.push(old(self)@.pc),
                ..old(self)@
            }),
            final(self)@.wf(),
    {
        if self.stack.len() >= STACK_SIZE {
            return Err(Fault::CallStackOverflow);
        }
        self.stack.push(self.pc);
        Ok(())
    }

    /// Number of return addresses on the stack.
    pub fn stack_depth(&self) -> (r: usize)
        ensures
            r == self@.stack.len(),
    {
        self.stack.len()
    }

    pub fn program_counter(&self) -> (r: u16)
        ensures
            r == self@.pc,
    {
        self.pc
    }

    pub fn set_program_counter(&mut self, value: u16)
        ensures
            final(self)@ == old(self)@.with_pc(value),
    {
        self.pc = value;
    }

    /// Moves the program counter on by one instruction (two bytes).
    pub fn next_instruction(&mut self)
        ensures
            final(self)@ == old(self)@.advance(2),
    {
        self.pc = self.pc.wrapping_add(2);
    }

    /// VX.
    pub fn register(&self, x: usize) -> (r: u8)
        requires
            x < N_REG,
        ensures
            r == self@.reg[x as int],
    {
        self.reg[x]
    }

    /// VX = `nn`.
    pub fn set_register(&mut self, x: usize, nn: u8)
        requires
            x < N_REG,
        ensures
            final(self)@ == old(self)@.with_reg(x as int, nn),
    {
        self.reg[x] = nn;
    }

    pub fn index(&self) -> (r: u16)
        ensures
            r == self@.index,
    {
        self.index
    }

    pub fn set_index(&mut self, value: u16)
        ensures
            final(self)@ == old(self)@.with_index(value),
    {
        self.index = value;
    }

    /// I += `value`, wrapping at 2^16; no flag is touched.
    pub fn add_index(&mut self, value: u16)
        ensures
            final(self)@ == old(self)@.with_index(((old(self)@.index + value) % 0x10000) as u16),
    {
        self.index = self.index.wrapping_add(value);
    }

    /// Writes memory at I + `offset`; `MemoryFault`, with the machine
    /// unchanged, past the end of memory.
    pub fn set_memory_at_index(&mut self, offset: usize, value: u8) -> (r: Result<(), Fault>)
        requires
            old(self)@.wf(),
        ensures
            old(self)@.index + offset < MEM_SIZE ==> (r is Ok) && final(self)@ == (MachineState {
                mem: old(self)@.mem.update(old(self)@.index + offset, value),
                ..old(self)@
            }),
            old(self)@.index + offset >= MEM_SIZE ==> r == Err::<(), Fault>(Fault::MemoryFault(old(self)@.index))
                && final(self)@ == old(self)@,
    {
        if offset >= MEM_SIZE || self.index as usize >= MEM_SIZE - offset {
            return Err(Fault::MemoryFault(self.index));
        }
        self.mem[self.index as usize + offset] = value;
        Ok(())
    }

    /// Reads memory at I + `offset`; `MemoryFault` past the end of memory.
    pub fn memory_at_index(&self, offset: usize) -> (r: Result<u8, Fault>)
        requires
            self@.wf(),
        ensures
            self@.index + offset < MEM_SIZE ==> r == Ok::<u8, Fault>(self@.mem[self@.index + offset]),
            self@.index + offset >= MEM_SIZE ==> r == Err::<u8, Fault>(Fault::MemoryFault(self@.index)),
    {
        if offset >= MEM_SIZE || self.index as usize >= MEM_SIZE - offset {
            return Err(Fault::MemoryFault(self.index));
        }
        Ok(self.mem[self.index as usize + offset])
    }

    /// Copies V0..=Vn to memory from I on, then moves I as the quirks say;
    /// `MemoryFault`, with the machine unchanged, when the block reaches past
    /// the end of memory.
    pub fn copy_n_reg_to_mem_from_index(&mut self, n: usize) -> (r: Result<(), Fault>)
        requires
            old(self)@.wf(),
            n < N_REG,
        ensures
            old(self)@.index + n + 1 <= MEM_SIZE ==> (r is Ok) && final(self)@ == store_block(
                old(self)@,
                n as int,
            ),
            old(self)@.index + n + 1 > MEM_SIZE ==> r == Err::<(), Fault>(Fault::MemoryFault(old(self)@.index))
                && final(self)@ == old(self)@,
    {
        let i = self.index as usize;
        if i + n + 1 > MEM_SIZE {
            return Err(Fault::MemoryFault(self.index));
        }
        let mut k: usize = 0;
        while k <= n
            invariant
                0 <= k <= n + 1,
                i == old(self)@.index,
                i + n + 1 <= MEM_SIZE,
                n < N_REG,
                self@ == (MachineState { mem: self@.mem, ..old(self)@ }),
                self@.mem.len() == MEM_SIZE,
                forall|a: int|
                    0 <= a < MEM_SIZE ==> #[trigger] self@.mem[a] == if i <= a < i + k {
                        old(self)@.reg[a - i]
                    } else {
                        old(self)@.mem[a]
                    },
            decreases n + 1 - k,
        {
            self.mem[i + k] = self.reg[k];
            k += 1;
        }
        assert(self@.mem =~= stored_mem(old(self)@, n as int));
        if self.quirks.increment_index {
            self.index = (i + n + 1) as u16;
        }
        Ok(())
    }

    /// Fills V0..=Vn from memory at I on, then moves I as the quirks say;
    /// `MemoryFault`, with the machine unchanged, when the block reaches past
    /// the end of memory.
    pub fn copy_mem_from_index_to_n_reg(&mut self, n: usize) -> (r: Result<(), Fault>)
        requires
            old(self)@.wf(),
            n < N_REG,
        ensures
            old(self)@.index + n + 1 <= MEM_SIZE ==> (r is Ok) && final(self)@ == load_block(
                old(self)@,
                n as int,
            ),
            old(self)@.index + n + 1 > MEM_SIZE ==> r == Err::<(), Fault>(Fault::MemoryFault(old(self)@.index))
                && final(self)@ == old(self)@,
    {
        let i = self.index as usize;
        if i + n + 1 > MEM_SIZE {
            return Err(Fault::MemoryFault(self.index));
        }
        let mut k: usize = 0;
        while k <= n
            invariant
                0 <= k <= n + 1,
                i == old(self)@.index,
                i + n + 1 <= MEM_SIZE,
                n < N_REG,
                self@ == (MachineState { reg: self@.reg, ..old(self)@ }),
                self@.reg.len() == N_REG,
                forall|r: int|
                    0 <= r < N_REG ==> #[trigger] self@.reg[r] == if r < k {
                        old(self)@.mem[i + r]
                    } else {
                        old(self)@.reg[r]
                    },
            decreases n + 1 - k,
        {
            self.reg[k] = self.mem[i + k];
            k += 1;
        }
        assert(self@.reg =~= loaded_reg(old(self)@, n as int));
        if self.quirks.increment_index {
            self.index = (i + n + 1) as u16;
        }
        Ok(())
    }

    /// The instruction word at the program counter, big-endian;
    /// `MemoryFault` when it does not lie wholly in memory.
    pub fn fetch(&self) -> (r: Result<u16, Fault>)
        requires
            self@.wf(),
        ensures
            self@.pc + 1 < MEM_SIZE ==> r == Ok::<u16, Fault>(self@.fetched()),
            self@.pc + 1 >= MEM_SIZE ==> r == Err::<u16, Fault>(Fault::MemoryFault(self@.pc)),
    {
        let pc = self.pc as usize;
        if pc + 1 >= MEM_SIZE {
            return Err(Fault::MemoryFault(self.pc));
        }
        let hi = self.mem[pc];
        let lo = self.mem[pc + 1];
        let w: u16 = ((hi as u16) << 8) | (lo as u16);
        assert(w == hi * 256 + lo) by (bit_vector)
            requires
                w == ((hi as u16) << 8) | (lo as u16),
        ;
        Ok(w)
    }

    /// `Some(x)` while a key wait for VX is pending.
    pub fn awaiting_key(&self) -> (r: Option<u8>)
        ensures
            r == self@.awaiting,
    {
        self.awaiting
    }

    pub(crate) fn set_awaiting(&mut self, awaiting: Option<u8>)
        ensures
            final(self)@ == (MachineState { awaiting, ..old(self)@ }),
    {
        self.awaiting = awaiting;
    }

    pub fn quirks(&self) -> (r: Quirks)
        ensures
            r == self@.quirks,
    {
        self.quirks
    }
}

} // verus!
