use chip8::{init, Chip8, Fault, Pacer, Quirks, Scheduler};

#[test]
fn sixteen_calls_succeed_and_the_seventeenth_overflows() {
    // 0x200: CALL 0x200, calling itself over and over.
    let mut c = Chip8::init(vec![0x22, 0x00]).unwrap();
    for depth in 1..=16 {
        assert_eq!(c.step(0), Ok(()));
        assert_eq!(c.stack_depth(), depth);
    }
    assert_eq!(c.step(0), Err(Fault::CallStackOverflow));
    assert_eq!(c.stack_depth(), 16);
    assert_eq!(c.program_counter(), 0x200);
}

#[test]
fn return_on_empty_stack_underflows() {
    let mut c = Chip8::init(vec![0x00, 0xEE]).unwrap();
    assert_eq!(c.step(0), Err(Fault::CallStackUnderflow));
    assert_eq!(c.program_counter(), 0x200);
}

#[test]
fn stack_primitives_report_bounds() {
    let mut c = init();
    assert_eq!(c.stack_pop(), Err(Fault::CallStackUnderflow));
    for i in 0..16u16 {
        c.set_program_counter(0x300 + 2 * i);
        assert_eq!(c.stack(), Ok(()));
    }
    assert_eq!(c.stack(), Err(Fault::CallStackOverflow));
    assert_eq!(c.stack_pop(), Ok(0x31E));
    assert_eq!(c.stack_depth(), 15);
}

#[test]
fn timers_decay_to_zero_and_stay_there() {
    let mut c = init();
    c.set_delay_timer(5);
    c.set_sound_timer(3);
    for n in 1..=8u8 {
        let sounding = c.update_timer();
        assert_eq!(c.delay_timer(), 5u8.saturating_sub(n));
        assert_eq!(c.sound_timer(), 3u8.saturating_sub(n));
        assert_eq!(sounding, c.sound_timer() > 0);
    }
}

#[test]
fn timer_from_full_scale() {
    let mut c = init();
    c.set_delay_timer(255);
    c.set_sound_timer(255);
    for _ in 0..300 {
        c.update_timer();
    }
    assert_eq!(c.delay_timer(), 0);
    assert_eq!(c.sound_timer(), 0);
    assert!(!c.update_timer());
}

#[test]
fn store_then_load_restores_registers() {
    for quirks in [
        Quirks { shift_uses_vy: false, increment_index: true },
        Quirks { shift_uses_vy: false, increment_index: false },
    ] {
        let mut c = Chip8::new(quirks);
        for r in 0..16 {
            c.set_register(r, (r as u8) * 7 + 1);
        }
        c.set_index(0x400);
        c.copy_n_reg_to_mem_from_index(9).unwrap();
        for r in 0..16 {
            c.set_register(r, 0xEE);
        }
        c.set_index(0x400);
        c.copy_mem_from_index_to_n_reg(9).unwrap();
        for r in 0..=9 {
            assert_eq!(c.register(r), (r as u8) * 7 + 1);
        }
        for r in 10..16 {
            assert_eq!(c.register(r), 0xEE);
        }
        let expected_index = if quirks.increment_index { 0x40A } else { 0x400 };
        assert_eq!(c.index(), expected_index);
    }
}

#[test]
fn load_then_store_leaves_memory() {
    let program: Vec<u8> = (0..32u8).map(|b| b.wrapping_mul(13)).collect();
    let mut c = Chip8::init(program.clone()).unwrap();
    c.set_index(0x200);
    c.copy_mem_from_index_to_n_reg(15).unwrap();
    c.set_index(0x200);
    c.copy_n_reg_to_mem_from_index(15).unwrap();
    c.set_index(0x200);
    for (k, b) in program.iter().enumerate() {
        assert_eq!(c.memory_at_index(k), Ok(*b));
    }
}

#[test]
fn timer_rate_does_not_follow_instruction_rate() {
    // 60 Hz timers against a 500 Hz and a 2 kHz processor, over one second of
    // simulated clock read at irregular moments.
    let times: Vec<u64> = vec![0, 700, 16_666, 16_667, 40_000, 333_334, 500_000, 999_999, 1_000_000];
    let mut slow = Scheduler::new(2_000, 16_667);
    let mut fast = Scheduler::new(500, 16_667);
    let (mut slow_steps, mut slow_ticks, mut fast_steps, mut fast_ticks) = (0u64, 0u64, 0u64, 0u64);
    for &t in times.iter() {
        let (s, k) = slow.advance(t);
        slow_steps += s;
        slow_ticks += k;
        let (s, k) = fast.advance(t);
        fast_steps += s;
        fast_ticks += k;
        assert_eq!(slow_ticks, fast_ticks);
    }
    assert_eq!(slow_steps, 500);
    assert_eq!(fast_steps, 2000);
    assert_eq!(slow_ticks, 59);
    assert_eq!(fast_ticks, 1_000_000 / 16_667);
}

#[test]
fn pacer_counts_due_activations_once() {
    let mut p = Pacer::new(100);
    assert_eq!(p.due(99), 0);
    assert_eq!(p.due(250), 2);
    assert_eq!(p.due(250), 0);
    assert_eq!(p.due(120), 0);
    assert_eq!(p.due(300), 1);
    assert_eq!(p.done, 3);
}

#[test]
fn pacer_remaining_sleep() {
    let p = Pacer::new(2_000);
    assert_eq!(p.remaining(500), Some(1_500));
    assert_eq!(p.remaining(0), Some(2_000));
    assert_eq!(p.remaining(2_000), None);
    assert_eq!(p.remaining(7_000), None);
}
