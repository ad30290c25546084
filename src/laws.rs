//! Properties that relate several instructions or repeated operations.
use crate::decode::{decode_word, Instruction};
use crate::fault::Fault;
use crate::semantics::{
    decay, exec_spec, load_block, step_spec, store_block, MachineState, MEM_SIZE, N_REG, STACK_SIZE,
};
use vstd::prelude::*;

verus! {

/// `k` successive executions of CALL `a`, starting from `m`.
pub open spec fn calls(m: MachineState, a: u16, k: nat) -> Result<MachineState, Fault>
    decreases k,
{
    if k == 0 {
        Ok(m)
    } else {
        match calls(m, a, (k - 1) as nat) {
            Ok(m1) => exec_spec(m1, Instruction::Call(a), 0),
            Err(e) => Err(e),
        }
    }
}

/// From an empty call stack, up to sixteen successive calls succeed and leave
/// that many return addresses; every longer run of calls fails with
/// `CallStackOverflow`. A return on an empty stack fails with
/// `CallStackUnderflow`.
pub proof fn lemma_call_stack_bounds(m: MachineState, a: u16, k: nat)
    requires
        m.wf(),
        m.stack.len() == 0,
    ensures
        k <= STACK_SIZE ==> (calls(m, a, k) matches Ok(m2) && m2.stack.len() == k && m2.wf()),
        k > STACK_SIZE ==> calls(m, a, k) == Err::<MachineState, Fault>(Fault::CallStackOverflow),
        exec_spec(m, Instruction::Return, 0) == Err::<MachineState, Fault>(Fault::CallStackUnderflow),
    decreases k,
{
    if k > 0 {
        lemma_call_stack_bounds(m, a, (k - 1) as nat);
    }
}

/// `n` successive timer ticks.
pub open spec fn decay_n(m: MachineState, n: nat) -> MachineState
    decreases n,
{
    if n == 0 {
        m
    } else {
        decay(decay_n(m, (n - 1) as nat))
    }
}

pub open spec fn saturating_sub(v: int, n: int) -> int {
    if v > n {
        v - n
    } else {
        0
    }
}

/// After `n` ticks each timer that started at `v` reads `max(0, v - n)`; all
/// the rest of the machine is untouched.
pub proof fn lemma_timer_decay(m: MachineState, n: nat)
    ensures
        decay_n(m, n).delay_timer == saturating_sub(m.delay_timer as int, n as int),
        decay_n(m, n).sound_timer == saturating_sub(m.sound_timer as int, n as int),
        decay_n(m, n) == (MachineState {
            delay_timer: decay_n(m, n).delay_timer,
            sound_timer: decay_n(m, n).sound_timer,
            ..m
        }),
    decreases n,
{
    if n > 0 {
        lemma_timer_decay(m, (n - 1) as nat);
    }
}

/// Storing V0..=VX at I and then loading V0..=VX from that same I gives back
/// the registers as they were, whatever the quirks; memory keeps what the
/// store wrote and I ends where the store left it.
pub proof fn lemma_store_load_round_trip(m: MachineState, x: u8)
    requires
        m.wf(),
        x < N_REG,
        m.index + x + 1 <= MEM_SIZE,
    ensures
        ({
            let m1 = store_block(m, x as int);
            let m2 = load_block(m1.with_index(m.index), x as int);
            m2.reg == m.reg && m2.mem == m1.mem && m2.index == m1.index
        }),
        exec_spec(m, Instruction::StoreRegs(x), 0) matches Ok(m1)
            && exec_spec(m1.with_index(m.index), Instruction::LoadRegs(x), 0) matches Ok(m2)
            && m2.reg == m.reg && m2.mem == m1.mem && m2.index == m1.index,
{
    let m2 = load_block(store_block(m, x as int).with_index(m.index), x as int);
    assert(m2.reg =~= m.reg);
    let e1 = exec_spec(m, Instruction::StoreRegs(x), 0)->Ok_0;
    let e2 = exec_spec(e1.with_index(m.index), Instruction::LoadRegs(x), 0)->Ok_0;
    assert(e2.reg =~= m.reg);
}

/// Loading V0..=VX from I and then storing V0..=VX at that same I leaves
/// memory as it was, whatever the quirks; the registers keep what the load
/// read and I ends where the load left it.
pub proof fn lemma_load_store_round_trip(m: MachineState, x: u8)
    requires
        m.wf(),
        x < N_REG,
        m.index + x + 1 <= MEM_SIZE,
    ensures
        ({
            let m1 = load_block(m, x as int);
            let m2 = store_block(m1.with_index(m.index), x as int);
            m2.mem == m.mem && m2.reg == m1.reg && m2.index == m1.index
        }),
        exec_spec(m, Instruction::LoadRegs(x), 0) matches Ok(m1)
            && exec_spec(m1.with_index(m.index), Instruction::StoreRegs(x), 0) matches Ok(m2)
            && m2.mem == m.mem && m2.reg == m1.reg && m2.index == m1.index,
{
    let m2 = store_block(load_block(m, x as int).with_index(m.index), x as int);
    assert(m2.mem =~= m.mem);
    let e1 = exec_spec(m, Instruction::LoadRegs(x), 0)->Ok_0;
    let e2 = exec_spec(e1.with_index(m.index), Instruction::StoreRegs(x), 0)->Ok_0;
    assert(e2.mem =~= m.mem);
}

/// The instructions that position the next fetch themselves: jumps, calls,
/// returns, the conditional skips and the key wait.
pub open spec fn positions_pc(ins: Instruction) -> bool {
    match ins {
        Instruction::Jump(_) | Instruction::Call(_) | Instruction::Return | Instruction::JumpV0(_)
        | Instruction::WaitKey(_) | Instruction::SkipEqImm(_, _) | Instruction::SkipNeImm(_, _)
        | Instruction::SkipEqReg(_, _) | Instruction::SkipNeReg(_, _) | Instruction::SkipKeyDown(_)
        | Instruction::SkipKeyUp(_) => true,
        _ => false,
    }
}

pub open spec fn is_conditional_skip(ins: Instruction) -> bool {
    match ins {
        Instruction::SkipEqImm(_, _) | Instruction::SkipNeImm(_, _) | Instruction::SkipEqReg(_, _)
        | Instruction::SkipNeReg(_, _) | Instruction::SkipKeyDown(_) | Instruction::SkipKeyUp(_) => true,
        _ => false,
    }
}

/// A step that fetches an instruction which does not position the next fetch
/// itself, and completes, moves the program counter on by exactly one
/// instruction (two bytes) and leaves the call stack as it was. A conditional
/// skip always completes, moving it on by one or by two instructions.
pub proof fn lemma_generic_advance(m: MachineState, random: u8)
    requires
        m.wf(),
        m.awaiting is None,
        m.pc + 1 < MEM_SIZE,
    ensures
        decode_word(m.fetched()) matches Ok(ins) && !positions_pc(ins) ==> (step_spec(m, random) matches Ok(
            m2,
        ) ==> m2.pc == m.pc + 2 && m2.stack == m.stack),
        decode_word(m.fetched()) matches Ok(ins) && is_conditional_skip(ins) ==> (step_spec(m, random) matches Ok(
            m2,
        ) && (m2.pc == m.pc + 2 || m2.pc == m.pc + 4) && m2.stack == m.stack),
{
    lemma_advance_exact(m, 2);
    lemma_advance_exact(m, 4);
}

proof fn lemma_advance_exact(m: MachineState, k: int)
    requires
        0 <= m.pc + k < 0x10000,
    ensures
        m.advance(k).pc == m.pc + k,
{
}

} // verus!
