use chip8::{decode, Chip8, Fault, Instruction, InstructionSet, Quirks};

/// A machine with `program` loaded at 0x200.
fn machine(program: &[u8]) -> Chip8 {
    Chip8::init(program.to_vec()).unwrap()
}

fn machine_with(program: &[u8], quirks: Quirks) -> Chip8 {
    let mut c = Chip8::new(quirks);
    c.load_rom(program.to_vec()).unwrap();
    c
}

fn word(w: u16) -> Vec<u8> {
    vec![(w >> 8) as u8, w as u8]
}

struct Case {
    word: u16,
    regs: &'static [(usize, u8)],
    expect_regs: &'static [(usize, u8)],
    pc_delta: u16,
}

#[test]
fn register_instruction_table() {
    let cases = [
        Case { word: 0x6A0F, regs: &[], expect_regs: &[(0xA, 0x0F)], pc_delta: 2 },
        Case { word: 0x7105, regs: &[(1, 0xFE), (0xF, 7)], expect_regs: &[(1, 0x03), (0xF, 7)], pc_delta: 2 },
        Case { word: 0x8010, regs: &[(1, 0x42)], expect_regs: &[(0, 0x42)], pc_delta: 2 },
        Case { word: 0x8011, regs: &[(0, 0xF0), (1, 0x0F)], expect_regs: &[(0, 0xFF)], pc_delta: 2 },
        Case { word: 0x8012, regs: &[(0, 0xF3), (1, 0x3F)], expect_regs: &[(0, 0x33)], pc_delta: 2 },
        Case { word: 0x8013, regs: &[(0, 0xFF), (1, 0x0F)], expect_regs: &[(0, 0xF0)], pc_delta: 2 },
        Case { word: 0x8014, regs: &[(0, 0xFF), (1, 0x01)], expect_regs: &[(0, 0x00), (0xF, 1)], pc_delta: 2 },
        Case { word: 0x8014, regs: &[(0, 0x10), (1, 0x01), (0xF, 1)], expect_regs: &[(0, 0x11), (0xF, 0)], pc_delta: 2 },
        Case { word: 0x8015, regs: &[(0, 0x01), (1, 0x02)], expect_regs: &[(0, 0xFF), (0xF, 0)], pc_delta: 2 },
        Case { word: 0x8015, regs: &[(0, 0x05), (1, 0x02)], expect_regs: &[(0, 0x03), (0xF, 1)], pc_delta: 2 },
        Case { word: 0x8017, regs: &[(0, 0x05), (1, 0x05)], expect_regs: &[(0, 0x00), (0xF, 1)], pc_delta: 2 },
        Case { word: 0x8017, regs: &[(0, 0x06), (1, 0x05)], expect_regs: &[(0, 0xFF), (0xF, 0)], pc_delta: 2 },
        Case { word: 0x8016, regs: &[(0, 0x05), (1, 0x80)], expect_regs: &[(0, 0x02), (0xF, 1)], pc_delta: 2 },
        Case { word: 0x801E, regs: &[(0, 0x81), (1, 0x01)], expect_regs: &[(0, 0x02), (0xF, 1)], pc_delta: 2 },
        Case { word: 0x801E, regs: &[(0, 0x41)], expect_regs: &[(0, 0x82), (0xF, 0)], pc_delta: 2 },
        Case { word: 0x3012, regs: &[(0, 0x12)], expect_regs: &[], pc_delta: 4 },
        Case { word: 0x3012, regs: &[(0, 0x13)], expect_regs: &[], pc_delta: 2 },
        Case { word: 0x4012, regs: &[(0, 0x13)], expect_regs: &[], pc_delta: 4 },
        Case { word: 0x4012, regs: &[(0, 0x12)], expect_regs: &[], pc_delta: 2 },
        Case { word: 0x5120, regs: &[(1, 9), (2, 9)], expect_regs: &[], pc_delta: 4 },
        Case { word: 0x5120, regs: &[(1, 9), (2, 8)], expect_regs: &[], pc_delta: 2 },
        Case { word: 0x9120, regs: &[(1, 9), (2, 8)], expect_regs: &[], pc_delta: 4 },
        Case { word: 0x9120, regs: &[(1, 9), (2, 9)], expect_regs: &[], pc_delta: 2 },
    ];
    for case in cases.iter() {
        let mut c = machine(&word(case.word));
        for &(r, v) in case.regs {
            c.set_register(r, v);
        }
        c.step(0).unwrap();
        for &(r, v) in case.expect_regs {
            assert_eq!(c.register(r), v, "word {:04X} register {:X}", case.word, r);
        }
        assert_eq!(c.program_counter(), 0x200 + case.pc_delta, "word {:04X}", case.word);
    }
}

#[test]
fn load_immediate_sets_register() {
    let mut c = machine(&[0x6A, 0x0F]);
    c.step(0).unwrap();
    assert_eq!(c.register(0xA), 0x0F);
    assert_eq!(c.program_counter(), 0x202);
    for r in 0..16 {
        if r != 0xA {
            assert_eq!(c.register(r), 0);
        }
    }
}

#[test]
fn shift_quirk_uses_vy_when_chosen() {
    let q = Quirks { shift_uses_vy: true, increment_index: true };
    let mut c = machine_with(&[0x80, 0x16], q);
    c.set_register(0, 0xFF);
    c.set_register(1, 0x03);
    c.step(0).unwrap();
    assert_eq!(c.register(0), 0x01);
    assert_eq!(c.register(0xF), 1);

    let mut c = machine_with(&[0x80, 0x1E], q);
    c.set_register(0, 0x01);
    c.set_register(1, 0x40);
    c.step(0).unwrap();
    assert_eq!(c.register(0), 0x80);
    assert_eq!(c.register(0xF), 0);
}

#[test]
fn jump_call_and_return() {
    // 0x200: CALL 0x206; 0x202: JP 0x300; 0x206: RET
    let mut c = machine(&[0x22, 0x06, 0x13, 0x00, 0x00, 0x00, 0x00, 0xEE]);
    c.step(0).unwrap();
    assert_eq!(c.program_counter(), 0x206);
    assert_eq!(c.stack_depth(), 1);
    c.step(0).unwrap();
    assert_eq!(c.program_counter(), 0x202);
    assert_eq!(c.stack_depth(), 0);
    c.step(0).unwrap();
    assert_eq!(c.program_counter(), 0x300);
}

#[test]
fn jump_plus_v0() {
    let mut c = machine(&[0xB3, 0x00]);
    c.set_register(0, 0x12);
    c.step(0).unwrap();
    assert_eq!(c.program_counter(), 0x312);
}

#[test]
fn index_instructions() {
    let mut c = machine(&[0xA1, 0x23, 0xF0, 0x1E, 0xF1, 0x29]);
    c.set_register(0, 0x10);
    c.set_register(1, 0x0B);
    c.step(0).unwrap();
    assert_eq!(c.index(), 0x123);
    c.step(0).unwrap();
    assert_eq!(c.index(), 0x133);
    assert_eq!(c.register(0xF), 0);
    c.step(0).unwrap();
    assert_eq!(c.index(), 0x50 + 0xB * 5);
    assert_eq!(c.program_counter(), 0x206);
}

#[test]
fn random_is_masked() {
    let mut c = machine(&[0xC3, 0x0F]);
    c.step(0xAB).unwrap();
    assert_eq!(c.register(3), 0x0B);
    for _ in 0..32 {
        let mut c = machine(&[0xC3, 0x0F]);
        c.tick().unwrap();
        assert_eq!(c.register(3) & 0xF0, 0);
        assert_eq!(c.program_counter(), 0x202);
    }
}

#[test]
fn draw_twice_clears_and_reports_collision() {
    // I = 0x50 (glyph 0), draw 5 rows at (V0, V1) twice.
    let mut c = machine(&[0xA0, 0x50, 0xD0, 0x15, 0xD0, 0x15]);
    c.set_register(0, 3);
    c.set_register(1, 2);
    c.step(0).unwrap();
    c.step(0).unwrap();
    assert!(c.draw_flag());
    assert_eq!(c.register(0xF), 0);
    // Top row of glyph 0 is 0xF0: four pixels from column 3 in row 2.
    for col in 3..7 {
        assert!(c.gfx(col + 2 * 64));
    }
    assert!(!c.gfx(7 + 2 * 64));
    c.gfx_buffer();
    c.step(0).unwrap();
    assert_eq!(c.register(0xF), 1);
    assert!(c.draw_flag());
    for p in 0..(64 * 32) {
        assert!(!c.gfx(p));
    }
}

#[test]
fn draw_wraps_start_and_clips_edges() {
    // A full 8-pixel row drawn at x = 60 + 64 (wraps to 60) is clipped at 64.
    let mut c = machine(&[0xA2, 0x06, 0xD0, 0x12, 0x00, 0x00, 0xFF, 0xFF]);
    c.set_register(0, 124);
    c.set_register(1, 31 + 32);
    c.step(0).unwrap();
    c.step(0).unwrap();
    for col in 60..64 {
        assert!(c.gfx(col + 31 * 64));
    }
    for col in 0..4 {
        assert!(!c.gfx(col + 31 * 64));
        assert!(!c.gfx(col));
    }
    let on = (0..64 * 32).filter(|&p| c.gfx(p)).count();
    assert_eq!(on, 4);
    assert_eq!(c.register(0xF), 0);
}

#[test]
fn clear_screen_sets_dirty() {
    let mut c = machine(&[0x00, 0xE0]);
    c.set_gfx(5, true);
    c.gfx_buffer();
    assert!(!c.draw_flag());
    c.step(0).unwrap();
    assert!(!c.gfx(5));
    assert!(c.draw_flag());
    assert_eq!(c.program_counter(), 0x202);
}

#[test]
fn key_skips() {
    let mut c = machine(&[0xE0, 0x9E]);
    c.set_register(0, 7);
    c.press_key(7);
    c.step(0).unwrap();
    assert_eq!(c.program_counter(), 0x204);

    let mut c = machine(&[0xE0, 0x9E]);
    c.set_register(0, 7);
    c.step(0).unwrap();
    assert_eq!(c.program_counter(), 0x202);

    let mut c = machine(&[0xE0, 0xA1]);
    c.set_register(0, 7);
    c.step(0).unwrap();
    assert_eq!(c.program_counter(), 0x204);

    let mut c = machine(&[0xE0, 0xA1]);
    c.set_register(0, 7);
    c.press_key(7);
    c.step(0).unwrap();
    assert_eq!(c.program_counter(), 0x202);
}

#[test]
fn key_index_past_last_key_is_never_held() {
    let mut c = machine(&[0xE0, 0x9E]);
    c.set_register(0, 0x20);
    c.step(0).unwrap();
    assert_eq!(c.program_counter(), 0x202);
    let mut c = machine(&[0xE0, 0xA1]);
    c.set_register(0, 0x20);
    c.step(0).unwrap();
    assert_eq!(c.program_counter(), 0x204);
}

#[test]
fn await_key_spins_until_a_key_is_held() {
    let mut c = machine(&[0xF5, 0x0A]);
    c.step(0).unwrap();
    assert_eq!(c.program_counter(), 0x200);
    assert_eq!(c.awaiting_key(), Some(5));
    c.step(0).unwrap();
    assert_eq!(c.program_counter(), 0x200);
    c.press_key(0xC);
    c.press_key(0x9);
    c.step(0).unwrap();
    assert_eq!(c.register(5), 0x9);
    assert_eq!(c.program_counter(), 0x202);
    assert_eq!(c.awaiting_key(), None);
}

#[test]
fn timer_instructions() {
    let mut c = machine(&[0xF3, 0x15, 0xF4, 0x18, 0xF5, 0x07]);
    c.set_register(3, 9);
    c.set_register(4, 4);
    c.step(0).unwrap();
    c.step(0).unwrap();
    assert_eq!(c.delay_timer(), 9);
    assert_eq!(c.sound_timer(), 4);
    c.update_timer();
    c.step(0).unwrap();
    assert_eq!(c.register(5), 8);
}

#[test]
fn bcd_writes_three_digits() {
    let mut c = machine(&[0xA3, 0x00, 0xF2, 0x33]);
    c.set_register(2, 254);
    c.step(0).unwrap();
    c.step(0).unwrap();
    assert_eq!(c.memory_at_index(0), Ok(2));
    assert_eq!(c.memory_at_index(1), Ok(5));
    assert_eq!(c.memory_at_index(2), Ok(4));
    assert_eq!(c.index(), 0x300);
}

#[test]
fn store_and_load_registers_increment_index() {
    let mut c = machine(&[0xA3, 0x00, 0xF2, 0x55, 0xA3, 0x00, 0xF3, 0x65]);
    c.set_register(0, 10);
    c.set_register(1, 11);
    c.set_register(2, 12);
    c.set_register(3, 13);
    c.step(0).unwrap();
    c.step(0).unwrap();
    assert_eq!(c.index(), 0x303);
    c.set_register(0, 0);
    c.set_register(1, 0);
    c.set_register(2, 0);
    c.step(0).unwrap();
    c.step(0).unwrap();
    assert_eq!(c.index(), 0x304);
    assert_eq!(c.register(0), 10);
    assert_eq!(c.register(1), 11);
    assert_eq!(c.register(2), 12);
    // Memory at 0x303 was never written: V3 now reads zero from it.
    assert_eq!(c.register(3), 0);
}

#[test]
fn store_leaves_index_when_quirk_is_off() {
    let q = Quirks { shift_uses_vy: false, increment_index: false };
    let mut c = machine_with(&[0xA3, 0x00, 0xF1, 0x55], q);
    c.set_register(0, 1);
    c.set_register(1, 2);
    c.step(0).unwrap();
    c.step(0).unwrap();
    assert_eq!(c.index(), 0x300);
    assert_eq!(c.memory_at_index(1), Ok(2));
}

#[test]
fn legacy_call_is_its_own_fault() {
    let mut c = machine(&[0x01, 0x23]);
    assert_eq!(c.step(0), Err(Fault::UnsupportedLegacyOpcode(0x0123)));
    assert_eq!(c.program_counter(), 0x200);
}

#[test]
fn unknown_opcodes() {
    for w in [0x0000u16, 0x5121, 0x8008, 0x9001, 0xE000, 0xF0FF] {
        let mut c = machine(&word(w));
        assert_eq!(c.step(0), Err(Fault::UnknownOpcode(w)));
        assert_eq!(c.program_counter(), 0x200);
    }
}

#[test]
fn memory_faults() {
    // Fetch at the last byte of memory.
    let mut c = machine(&[0x1F, 0xFF]);
    c.step(0).unwrap();
    assert_eq!(c.step(0), Err(Fault::MemoryFault(0xFFF)));
    // Sprite rows past the end of memory.
    let mut c = machine(&[0xAF, 0xFE, 0xD0, 0x03]);
    c.step(0).unwrap();
    assert_eq!(c.step(0), Err(Fault::MemoryFault(0xFFE)));
    assert_eq!(c.register(0xF), 0);
    // Register block past the end of memory.
    let mut c = machine(&[0xAF, 0xFE, 0xF2, 0x55]);
    c.step(0).unwrap();
    assert_eq!(c.step(0), Err(Fault::MemoryFault(0xFFE)));
    assert_eq!(c.index(), 0xFFE);
    let mut c = machine(&[0xAF, 0xFE, 0xF0, 0x33]);
    c.step(0).unwrap();
    assert_eq!(c.step(0), Err(Fault::MemoryFault(0xFFE)));
}

#[test]
fn decode_names_every_family() {
    assert_eq!(decode(0x00E0), Ok(Instruction::ClearScreen));
    assert_eq!(decode(0x00EE), Ok(Instruction::Return));
    assert_eq!(decode(0x1ABC), Ok(Instruction::Jump(0xABC)));
    assert_eq!(decode(0x2ABC), Ok(Instruction::Call(0xABC)));
    assert_eq!(decode(0xD12F), Ok(Instruction::Draw(1, 2, 0xF)));
    assert_eq!(decode(0xFA65), Ok(Instruction::LoadRegs(0xA)));
    assert_eq!(decode(0x0FFF), Err(Fault::UnsupportedLegacyOpcode(0x0FFF)));
}

#[test]
fn trait_methods_follow_the_instructions() {
    let mut c = machine(&[]);
    c.process_6xnn(2, 0x40);
    c.process_7xnn(2, 0x02);
    assert_eq!(c.register(2), 0x42);
    assert_eq!(c.program_counter(), 0x204);
    c.process_cxnn(3, 0x3C, 0xFF);
    assert_eq!(c.register(3), 0x3C);
    assert_eq!(c.process_00ee(), Err(Fault::CallStackUnderflow));
}
