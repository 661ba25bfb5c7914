//! Properties of the instruction set that hold of every machine state,
//! proved from the semantics that the machine follows.
use vstd::prelude::*;
use crate::display::cell;
use crate::instruction::{decode, Instruction};
use crate::error::Chip8Error;
use crate::semantics::{
    advanced, apply, covers, fetch_word, lemma_offset, mem_at, set_reg, skip_if, step, wrap16,
    wrap8, MachineState,
};

verus! {

/// Storing the immediate byte `v` in register `i` makes register `i` equal
/// to `v` and leaves every other register, and the rest of the machine, as
/// it was.
pub proof fn lemma_store_immediate(s: MachineState, i: u8, v: u8)
    requires
        s.wf(),
        i < 16,
    ensures
        apply(s, Instruction::SetImm { x: i, nn: v }) matches Ok(t) && {
            &&& t.regs[i as int] == v
            &&& forall|j: int| 0 <= j < 16 && j != i ==> t.regs[j] == s.regs[j]
            &&& t == (MachineState { regs: t.regs, ..s })
        },
{
    reveal(apply);
}

/// Adding the immediate `a` and then `b` to register `i` leaves it equal to
/// its first value plus `a` plus `b`, modulo 256.
pub proof fn lemma_add_immediate_twice(s: MachineState, i: u8, a: u8, b: u8)
    requires
        s.wf(),
        i < 16,
    ensures
        apply(s, Instruction::AddImm { x: i, nn: a }) matches Ok(t) && apply(
            t,
            Instruction::AddImm { x: i, nn: b },
        ) matches Ok(u) && {
            &&& u.regs[i as int] == (s.regs[i as int] + a + b) % 256
            &&& forall|j: int| 0 <= j < 16 && j != i ==> u.regs[j] == s.regs[j]
        },
{
    let t = set_reg(s, i, wrap8(s.regs[i as int] + a));
    let u = set_reg(t, i, wrap8(t.regs[i as int] + b));
    assert(apply(s, Instruction::AddImm { x: i, nn: a }) == Ok::<MachineState, Chip8Error>(t)) by {
        reveal(apply);
    }
    assert(apply(t, Instruction::AddImm { x: i, nn: b }) == Ok::<MachineState, Chip8Error>(u)) by {
        reveal(apply);
    }
    let r = s.regs[i as int] as int;
    if r + a < 256 {
        assert((r + a) % 256 == r + a);
    } else {
        assert((r + a) % 256 == r + a - 256);
    }
}

/// Clearing the screen turns off every pixel, whatever was on before.
pub proof fn lemma_clear_screen(s: MachineState)
    requires
        s.wf(),
    ensures
        apply(s, Instruction::ClearScreen) matches Ok(t) && forall|r: int, c: int|
            0 <= r < 32 && 0 <= c < 64 ==> !t.screen[#[trigger] cell(r, c)],
{
    reveal(apply);
}

/// A jump sets `pc` to its target, whatever `pc` was.
pub proof fn lemma_jump(s: MachineState, nnn: u16)
    requires
        s.wf(),
        nnn < 0x1000,
    ensures
        apply(s, Instruction::Jump { nnn }) matches Ok(t) && t.pc == nnn,
{
    reveal(apply);
}

/// A cycle that runs a call at `pc`, followed by a cycle that runs the
/// return at its target, resumes at the instruction after the call, with
/// the call stack as it was.
pub proof fn lemma_call_then_return(s: MachineState, nnn: u16)
    requires
        s.wf(),
        nnn < 0x1000,
        fetch_word(s) == 0x2000 + nnn,
        mem_at(s.ram, nnn as int) == 0x00,
        mem_at(s.ram, nnn + 1) == 0xEE,
    ensures
        step(s).1 is Ok,
        step(step(s).0).1 is Ok,
        step(step(s).0).0.pc == wrap16(s.pc + 2),
        step(step(s).0).0.stack == s.stack,
{
    reveal(apply);
    let w = fetch_word(s);
    assert(w / 0x1000 == 2 && w % 0x1000 == nnn);
    let t = step(s).0;
    assert(t.pc == nnn && t.ram == s.ram);
    assert(fetch_word(t) == 0x00EE);
    assert(t.stack.drop_last() =~= s.stack);
}

/// Drawing the same sprite twice at the same place returns every pixel to
/// what it was before the first drawing, and where the first drawing turned
/// a pixel on, the second reports a collision. The place is the same where
/// neither coordinate register is the flag register, which the first
/// drawing overwrites.
pub proof fn lemma_draw_twice(s: MachineState, x: u8, y: u8, n: u8)
    requires
        s.wf(),
        x < 15,
        y < 15,
        n < 16,
    ensures
        apply(s, Instruction::Draw { x, y, n }) matches Ok(t) && apply(
            t,
            Instruction::Draw { x, y, n },
        ) matches Ok(u) && {
            &&& u.screen == s.screen
            &&& (exists|i: int| 0 <= i < 2048 && !s.screen[i] && #[trigger] t.screen[i])
                ==> u.regs[15] == 1
        },
{
    reveal(apply);
    let t = apply(s, Instruction::Draw { x, y, n })->Ok_0;
    let u = apply(t, Instruction::Draw { x, y, n })->Ok_0;
    let x0 = (s.regs[x as int] % 64) as int;
    let y0 = s.regs[y as int] as int;
    assert(t.regs[x as int] == s.regs[x as int] && t.regs[y as int] == s.regs[y as int]);
    assert forall|r: int, c: int| covers(t, x0, y0, n as int, r, c) == covers(s, x0, y0, n as int, r, c) by {}
    assert(u.screen =~= s.screen);
    if exists|i: int| 0 <= i < 2048 && !s.screen[i] && #[trigger] t.screen[i] {
        let i = choose|i: int| 0 <= i < 2048 && !s.screen[i] && #[trigger] t.screen[i];
        assert(covers(t, x0, y0, n as int, i / 64, i % 64));
    }
}

/// Whether `ins` is one of the conditional skips.
pub open spec fn is_skip(ins: Instruction) -> bool {
    match ins {
        Instruction::SkipEqImm { .. }
        | Instruction::SkipNeImm { .. }
        | Instruction::SkipEqReg { .. }
        | Instruction::SkipNeReg { .. }
        | Instruction::SkipKeyDown { .. }
        | Instruction::SkipKeyUp { .. } => true,
        _ => false,
    }
}

/// The condition under which the skip `ins` skips, in state `s`.
pub open spec fn skip_taken(s: MachineState, ins: Instruction) -> bool {
    let r = s.regs;
    match ins {
        Instruction::SkipEqImm { x, nn } => r[x as int] == nn,
        Instruction::SkipNeImm { x, nn } => r[x as int] != nn,
        Instruction::SkipEqReg { x, y } => r[x as int] == r[y as int],
        Instruction::SkipNeReg { x, y } => r[x as int] != r[y as int],
        Instruction::SkipKeyDown { x } => s.key == Some(r[x as int]),
        Instruction::SkipKeyUp { x } => s.key != Some(r[x as int]),
        _ => false,
    }
}

/// A cycle that runs a skip instruction moves `pc` on by four when the
/// condition holds and by two when it does not, and changes nothing else.
pub proof fn lemma_skip(s: MachineState)
    requires
        s.wf(),
        decode(fetch_word(s)) matches Some(ins) && is_skip(ins),
    ensures
        step(s).1 is Ok,
        step(s).0 == (MachineState {
            pc: wrap16(s.pc + if skip_taken(s, decode(fetch_word(s))->Some_0) { 4int } else { 2int }),
            ..s
        }),
{
    let ins = decode(fetch_word(s))->Some_0;
    let t = advanced(s);
    assert(apply(t, ins) == Ok::<MachineState, Chip8Error>(skip_if(t, skip_taken(s, ins)))) by {
        reveal(apply);
    }
    let p = s.pc as int;
    if p + 2 < 0x10000 {
        assert((p + 2) % 0x10000 == p + 2);
    } else {
        assert((p + 2) % 0x10000 == p + 2 - 0x10000);
    }
}

/// Copying registers `V0..=Vk` to memory at `idx` and then loading them
/// back from the same address gives every register its first value.
pub proof fn lemma_dump_then_load(s: MachineState, k: u8)
    requires
        s.wf(),
        k < 16,
    ensures
        apply(s, Instruction::StoreRegs { x: k }) matches Ok(t) && apply(
            t,
            Instruction::LoadRegs { x: k },
        ) matches Ok(u) && u.regs == s.regs,
{
    reveal(apply);
    let t = apply(s, Instruction::StoreRegs { x: k })->Ok_0;
    let u = apply(t, Instruction::LoadRegs { x: k })->Ok_0;
    assert forall|i: int| 0 <= i < 16 implies u.regs[i] == s.regs[i] by {
        if i <= k {
            let a = (s.idx + i) % 4096;
            lemma_offset(a, s.idx as int, i);
        }
    }
    assert(u.regs =~= s.regs);
}

} // verus!
