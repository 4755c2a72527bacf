use vstd::prelude::*;

use crate::display::SCREEN_PIXELS;
use crate::instruction::Instruction;
use crate::machine::{exec_spec, MachineState, MEMORY_SIZE, STACK_DEPTH};

verus! {

/// Loading `nn1` into a register and then adding `nn2` to it leaves
/// `(nn1 + nn2) mod 256` there, and neither instruction fails, even when the
/// sum exceeds 255.
pub proof fn lemma_load_then_add_wraps(s: MachineState, x: u8, nn1: u8, nn2: u8, rnd: u8)
    requires
        s.wf(),
        x < 16,
        s.pc + 3 < MEMORY_SIZE,
    ensures
        exec_spec(s, Instruction::LoadByte { x, nn: nn1 }, rnd) matches Ok(s1)
            && exec_spec(s1, Instruction::AddByte { x, nn: nn2 }, rnd) matches Ok(s2)
            && s2.v[x as int] == (nn1 + nn2) % 256,
{
}

/// Adding register `Y` to register `X` sets `VF` to 1 exactly when the sum
/// exceeds 255, and leaves the sum modulo 256 in `X`.
pub proof fn lemma_add_registers_carry(s: MachineState, x: u8, y: u8, rnd: u8)
    requires
        s.wf(),
        x < 15,
        y < 16,
        s.pc + 1 < MEMORY_SIZE,
    ensures
        exec_spec(s, Instruction::AddReg { x, y }, rnd) matches Ok(t)
            && (t.v[15] == 1 <==> s.v[x as int] + s.v[y as int] > 255)
            && (t.v[15] == 0 <==> s.v[x as int] + s.v[y as int] <= 255)
            && t.v[x as int] == (s.v[x as int] + s.v[y as int]) % 256,
{
}

/// Clearing the screen leaves every pixel dark and raises the draw flag.
pub proof fn lemma_clear_screen(s: MachineState, rnd: u8)
    requires
        s.wf(),
        s.pc + 1 < MEMORY_SIZE,
    ensures
        exec_spec(s, Instruction::ClearScreen, rnd) matches Ok(t)
            && t.draw_flag
            && t.gfx.len() == SCREEN_PIXELS
            && forall|p: int| 0 <= p < SCREEN_PIXELS ==> !#[trigger] t.gfx[p],
{
}

/// A jump sets the program counter to its target exactly.
pub proof fn lemma_jump_exact(s: MachineState, nnn: u16, rnd: u8)
    requires
        s.wf(),
        nnn < 0x1000,
        s.pc + 1 < MEMORY_SIZE,
    ensures
        exec_spec(s, Instruction::Jump { nnn }, rnd) matches Ok(t) && t.pc == nnn,
{
}

/// A call followed by a return comes back to the instruction right after
/// the call, with the stack depth restored.
pub proof fn lemma_call_then_return(s: MachineState, nnn: u16, rnd: u8)
    requires
        s.wf(),
        nnn + 1 < MEMORY_SIZE,
        s.sp < STACK_DEPTH,
        s.pc + 1 < MEMORY_SIZE,
    ensures
        exec_spec(s, Instruction::Call { nnn }, rnd) matches Ok(s1)
            && exec_spec(s1, Instruction::Return, rnd) matches Ok(s2)
            && s2.pc == s.pc + 2
            && s2.sp == s.sp,
{
}

} // verus!
