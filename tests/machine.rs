use chip8::{init, Chip8, Fault, Quirks, HEIGHT, WIDTH};

const GLYPH_ZERO: [u8; 5] = [0xF0, 0x90, 0x90, 0x90, 0xF0];
const GLYPH_F: [u8; 5] = [0xF0, 0x80, 0xF0, 0x80, 0x80];

#[test]
fn fresh_machine_state() {
    let mut c = init();
    assert_eq!(c.program_counter(), 0x200);
    assert_eq!(c.index(), 0);
    assert_eq!(c.stack_depth(), 0);
    assert_eq!(c.delay_timer(), 0);
    assert_eq!(c.sound_timer(), 0);
    assert!(!c.draw_flag());
    assert_eq!(c.keypad(), [false; 16]);
    assert_eq!(c.quirks(), Quirks::standard());
    assert_eq!(WIDTH * HEIGHT, 2048);
    c.set_index(0x50);
    for (k, b) in GLYPH_ZERO.iter().enumerate() {
        assert_eq!(c.memory_at_index(k), Ok(*b));
    }
    c.set_index(0x50 + 15 * 5);
    for (k, b) in GLYPH_F.iter().enumerate() {
        assert_eq!(c.memory_at_index(k), Ok(*b));
    }
    c.set_index(0);
    assert_eq!(c.memory_at_index(0x4F), Ok(0));
    assert_eq!(c.memory_at_index(0xA0), Ok(0));
}

#[test]
fn program_is_loaded_at_0x200() {
    let mut c = Chip8::init(vec![1, 2, 3]).unwrap();
    c.set_index(0x200);
    assert_eq!(c.memory_at_index(0), Ok(1));
    assert_eq!(c.memory_at_index(2), Ok(3));
    assert_eq!(c.memory_at_index(3), Ok(0));
}

#[test]
fn largest_program_fits_and_one_more_byte_does_not() {
    let max = vec![0xAB; 4096 - 0x200];
    let mut c = Chip8::init(max).unwrap();
    c.set_index(0xFFF);
    assert_eq!(c.memory_at_index(0), Ok(0xAB));
    assert!(matches!(Chip8::init(vec![0; 4096 - 0x200 + 1]), Err(Fault::ProgramTooLarge)));
    let mut c = init();
    assert_eq!(c.load_rom(vec![7; 5000]), Err(Fault::ProgramTooLarge));
    c.set_index(0x200);
    assert_eq!(c.memory_at_index(0), Ok(0));
}

#[test]
fn reset_keeps_program_and_clears_the_rest() {
    let mut c = Chip8::init(vec![0x60, 0x05, 0x22, 0x00]).unwrap();
    c.step(0).unwrap();
    c.step(0).unwrap();
    c.set_delay_timer(9);
    c.set_sound_timer(9);
    c.press_key(3);
    c.set_gfx(10, true);
    c.set_index(0x50);
    c.set_memory_at_index(0, 0).unwrap();
    c.reset();
    assert_eq!(c.program_counter(), 0x200);
    assert_eq!(c.register(0), 0);
    assert_eq!(c.stack_depth(), 0);
    assert_eq!(c.index(), 0);
    assert_eq!(c.delay_timer(), 0);
    assert_eq!(c.sound_timer(), 0);
    assert!(!c.is_key_down(3));
    assert!(!c.gfx(10));
    assert!(!c.draw_flag());
    c.set_index(0x50);
    assert_eq!(c.memory_at_index(0), Ok(0xF0));
    c.set_index(0x200);
    assert_eq!(c.memory_at_index(0), Ok(0x60));
    assert_eq!(c.memory_at_index(1), Ok(0x05));
}

#[test]
fn reset_restores_the_loaded_image() {
    // V0 = 7; I = 0x200; store V0 over the program's first byte; then write
    // the decimal digits of V0 at 0x300.
    let mut c = Chip8::init(vec![0x60, 0x07, 0xA2, 0x00, 0xF0, 0x55, 0xA3, 0x00, 0xF0, 0x33]).unwrap();
    for _ in 0..5 {
        c.step(0).unwrap();
    }
    c.set_index(0x200);
    assert_eq!(c.memory_at_index(0), Ok(7));
    c.set_index(0x302);
    assert_eq!(c.memory_at_index(0), Ok(7));
    c.reset();
    c.set_index(0x200);
    for (k, b) in [0x60, 0x07, 0xA2, 0x00, 0xF0, 0x55].iter().enumerate() {
        assert_eq!(c.memory_at_index(k), Ok(*b));
    }
    c.set_index(0x300);
    for k in 0..3 {
        assert_eq!(c.memory_at_index(k), Ok(0));
    }
    assert_eq!(c.register(0), 0);
    assert_eq!(c.program_counter(), 0x200);
    c.step(0).unwrap();
    assert_eq!(c.register(0), 7);
}

#[test]
fn frame_is_taken_once_per_change() {
    let mut c = init();
    assert_eq!(c.take_frame(), None);
    c.set_gfx(0, true);
    c.set_gfx(WIDTH * HEIGHT - 1, true);
    let frame = c.take_frame().unwrap();
    assert_eq!(frame.len(), 2048);
    assert_eq!(frame[0], 0xFFFF_FFFF);
    assert_eq!(frame[1], 0);
    assert_eq!(frame[2047], 0xFFFF_FFFF);
    assert!(!c.get_draw_flag());
    assert_eq!(c.take_frame(), None);
    c.set_draw_flag();
    assert_eq!(c.get_gfx_buffer(), frame);
    assert!(!c.draw_flag());
}

#[test]
fn reset_gfx_clears_pixels_and_mark() {
    let mut c = init();
    c.set_gfx(33, true);
    c.reset_gfx();
    assert!(!c.gfx(33));
    assert!(!c.draw_flag());
    assert!(c.gfx_buffer().iter().all(|&p| p == 0));
}

#[test]
fn keys_press_release_and_latch() {
    let mut c = init();
    c.press_key(4);
    c.press_key(15);
    assert!(c.is_key_down(4));
    c.release_key(4);
    assert!(!c.is_key_down(4));
    assert!(c.is_key_down(15));
    c.reset_keypad();
    assert_eq!(c.keypad(), [false; 16]);
    c.latch_keys(&vec![2, 9, 9, 40]);
    let mut expected = [false; 16];
    expected[2] = true;
    expected[9] = true;
    assert_eq!(c.keypad(), expected);
    c.latch_keys(&vec![]);
    assert_eq!(c.keypad(), [false; 16]);
}

#[test]
fn index_arithmetic_wraps() {
    let mut c = init();
    c.set_index(0xFFFF);
    c.add_index(2);
    assert_eq!(c.index(), 1);
    c.set_program_counter(0xFFFE);
    c.next_instruction();
    assert_eq!(c.program_counter(), 0);
}

#[test]
fn memory_access_bounds() {
    let mut c = init();
    c.set_index(0xFFF);
    assert_eq!(c.set_memory_at_index(0, 9), Ok(()));
    assert_eq!(c.memory_at_index(0), Ok(9));
    assert_eq!(c.memory_at_index(1), Err(Fault::MemoryFault(0xFFF)));
    assert_eq!(c.set_memory_at_index(1, 9), Err(Fault::MemoryFault(0xFFF)));
    c.set_index(0xFFF0);
    assert_eq!(c.memory_at_index(0), Err(Fault::MemoryFault(0xFFF0)));
    assert_eq!(c.copy_n_reg_to_mem_from_index(0), Err(Fault::MemoryFault(0xFFF0)));
    assert_eq!(c.copy_mem_from_index_to_n_reg(0), Err(Fault::MemoryFault(0xFFF0)));
    assert_eq!(c.index(), 0xFFF0);
}
