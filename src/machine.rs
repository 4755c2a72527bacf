use vstd::prelude::*;

use crate::display::{collides, draw_sprite, drawn, SCREEN_PIXELS};
use crate::error::Chip8Error;
use crate::font::{font_set, font_spec, FONT_BYTES, GLYPH_BYTES};
use crate::instruction::{decode, decode_spec, Instruction};

verus! {

/// Size of the addressable memory in bytes.
pub const MEMORY_SIZE: usize = 4096;

/// Address at which programs are loaded and execution starts.
pub const PROGRAM_START: usize = 0x200;

/// Largest program image that fits above the reserved area.
pub const MAX_PROGRAM_SIZE: usize = 3584;

/// Number of general-purpose registers, and of keys.
pub const REGISTER_COUNT: usize = 16;

/// Number of return-address slots.
pub const STACK_DEPTH: usize = 16;

/// Index of the flag register `VF`.
pub const FLAG_REGISTER: usize = 15;

/// The whole state of a CHIP-8 machine.
pub struct Chip8 {
    /// Framebuffer, row by row, `true` where a pixel is lit.
    pub gfx: Vec<bool>,
    /// Input latch: `true` where a key is held down.
    pub key: Vec<bool>,
    /// Program counter.
    pub pc: u16,
    /// Address register `I`.
    pub i: u16,
    /// Number of occupied stack slots.
    pub sp: u16,
    /// Registers `V0` to `VF`.
    pub v: Vec<u8>,
    /// Return addresses.
    pub stack: Vec<u16>,
    /// Memory: font at 0, program from `PROGRAM_START`.
    pub memory: Vec<u8>,
    /// Delay timer.
    pub delay_timer: u8,
    /// Sound timer.
    pub sound_timer: u8,
    /// Set whenever the framebuffer changes; cleared by the renderer.
    pub draw_flag: bool,
}

/// The mathematical value of a [`Chip8`].
pub struct MachineState {
    pub gfx: Seq<bool>,
    pub key: Seq<bool>,
    pub pc: u16,
    pub i: u16,
    pub sp: u16,
    pub v: Seq<u8>,
    pub stack: Seq<u16>,
    pub memory: Seq<u8>,
    pub delay_timer: u8,
    pub sound_timer: u8,
    pub draw_flag: bool,
}

impl View for Chip8 {
    type V = MachineState;

    open spec fn view(&self) -> MachineState {
        MachineState {
            gfx: self.gfx@,
            key: self.key@,
            pc: self.pc,
            i: self.i,
            sp: self.sp,
            v: self.v@,
            stack: self.stack@,
            memory: self.memory@,
            delay_timer: self.delay_timer,
            sound_timer: self.sound_timer,
            draw_flag: self.draw_flag,
        }
    }
}

impl MachineState {
    /// Every component has its fixed size, the stack pointer is within the
    /// stack and `I` addresses memory.
    pub open spec fn wf(self) -> bool {
        &&& self.gfx.len() == SCREEN_PIXELS
        &&& self.key.len() == REGISTER_COUNT
        &&& self.v.len() == REGISTER_COUNT
        &&& self.stack.len() == STACK_DEPTH
        &&& self.memory.len() == MEMORY_SIZE
        &&& self.sp <= STACK_DEPTH
        &&& self.i < MEMORY_SIZE
    }

    /// The state with register `x` set to `val`.
    pub open spec fn with_reg(self, x: int, val: u8) -> MachineState {
        MachineState { v: self.v.update(x, val), ..self }
    }

    /// The state with the program counter moved on by `d` bytes.
    pub open spec fn advanced(self, d: int) -> MachineState {
        MachineState { pc: (self.pc + d) as u16, ..self }
    }
}

/// The lowest index at or above `k` of a key that is held down.
pub open spec fn first_pressed_from(key: Seq<bool>, k: int) -> Option<u8>
    decreases 16 - k,
{
    if k >= 16 || k < 0 {
        None
    } else if key[k] {
        Some(k as u8)
    } else {
        first_pressed_from(key, k + 1)
    }
}

/// `a - b` modulo 256.
pub open spec fn wrapping_sub_u8(a: u8, b: u8) -> u8 {
    ((a - b + 256) % 256) as u8
}

/// The state after one register-to-register arithmetic or logic
/// instruction writes `result` into `VX` and then `flag` into `VF`.
pub open spec fn alu_result(s: MachineState, x: int, result: u8, flag: u8) -> MachineState {
    s.with_reg(x, result).with_reg(15, flag).advanced(2)
}

/// The effect of executing `ins` at `s.pc`, where `rnd` is the byte that a
/// random instruction draws.
pub open spec fn exec_spec(s: MachineState, ins: Instruction, rnd: u8) -> Result<MachineState, Chip8Error> {
    let next = (s.pc + 2) as u16;
    let skip = (s.pc + 4) as u16;
    if s.pc + 1 >= MEMORY_SIZE {
        Err(Chip8Error::MemoryOutOfBounds)
    } else {
        match ins {
            Instruction::ClearScreen => Ok(MachineState {
                gfx: Seq::new(SCREEN_PIXELS as nat, |p: int| false),
                draw_flag: true,
                pc: next,
                ..s
            }),
            Instruction::Return => if s.sp == 0 {
                Err(Chip8Error::StackUnderflow)
            } else {
                Ok(MachineState { sp: (s.sp - 1) as u16, pc: s.stack[s.sp - 1], ..s })
            },
            Instruction::Jump { nnn } => Ok(MachineState { pc: nnn, ..s }),
            Instruction::Call { nnn } => if s.sp >= STACK_DEPTH {
                Err(Chip8Error::StackOverflow)
            } else {
                Ok(MachineState {
                    stack: s.stack.update(s.sp as int, next),
                    sp: (s.sp + 1) as u16,
                    pc: nnn,
                    ..s
                })
            },
            Instruction::SkipEqByte { x, nn } =>
                Ok(MachineState { pc: if s.v[x as int] == nn { skip } else { next }, ..s }),
            Instruction::SkipNeByte { x, nn } =>
                Ok(MachineState { pc: if s.v[x as int] != nn { skip } else { next }, ..s }),
            Instruction::SkipEqReg { x, y } =>
                Ok(MachineState { pc: if s.v[x as int] == s.v[y as int] { skip } else { next }, ..s }),
            Instruction::SkipNeReg { x, y } =>
                Ok(MachineState { pc: if s.v[x as int] != s.v[y as int] { skip } else { next }, ..s }),
            Instruction::LoadByte { x, nn } => Ok(s.with_reg(x as int, nn).advanced(2)),
            Instruction::AddByte { x, nn } =>
                Ok(s.with_reg(x as int, ((s.v[x as int] + nn) % 256) as u8).advanced(2)),
            Instruction::Move { x, y } => Ok(s.with_reg(x as int, s.v[y as int]).advanced(2)),
            Instruction::Or { x, y } =>
                Ok(s.with_reg(x as int, s.v[x as int] | s.v[y as int]).advanced(2)),
            Instruction::And { x, y } =>
                Ok(s.with_reg(x as int, s.v[x as int] & s.v[y as int]).advanced(2)),
            Instruction::Xor { x, y } =>
                Ok(s.with_reg(x as int, s.v[x as int] ^ s.v[y as int]).advanced(2)),
            Instruction::AddReg { x, y } => {
                let (a, b) = (s.v[x as int], s.v[y as int]);
                Ok(alu_result(s, x as int, ((a + b) % 256) as u8, if a + b > 255 { 1 } else { 0 }))
            },
            Instruction::SubReg { x, y } => {
                let (a, b) = (s.v[x as int], s.v[y as int]);
                Ok(alu_result(s, x as int, wrapping_sub_u8(a, b), if b > a { 0 } else { 1 }))
            },
            Instruction::ShiftRight { x, .. } => {
                let a = s.v[x as int];
                Ok(alu_result(s, x as int, a / 2, a % 2))
            },
            Instruction::SubNeg { x, y } => {
                let (a, b) = (s.v[x as int], s.v[y as int]);
                Ok(alu_result(s, x as int, wrapping_sub_u8(b, a), if a > b { 0 } else { 1 }))
            },
            Instruction::ShiftLeft { x, .. } => {
                let a = s.v[x as int];
                Ok(alu_result(s, x as int, ((a * 2) % 256) as u8, a / 128))
            },
            Instruction::LoadIndex { nnn } => Ok(MachineState { i: nnn, pc: next, ..s }),
            Instruction::JumpOffset { nnn } => Ok(MachineState { pc: (nnn + s.v[0]) as u16, ..s }),
            Instruction::Random { x, nn } => Ok(s.with_reg(x as int, rnd & nn).advanced(2)),
            Instruction::Draw { x, y, n } => if s.i + n > MEMORY_SIZE {
                Err(Chip8Error::MemoryOutOfBounds)
            } else {
                let rows = s.memory.subrange(s.i as int, s.i + n);
                let (vx, vy) = (s.v[x as int], s.v[y as int]);
                Ok(MachineState {
                    gfx: drawn(s.gfx, rows, n as int, vx, vy),
                    v: s.v.update(15, if collides(s.gfx, rows, n as int, vx, vy) { 1 } else { 0 }),
                    draw_flag: true,
                    pc: next,
                    ..s
                })
            },
            Instruction::SkipKeyPressed { x } =>
                Ok(MachineState { pc: if s.key[s.v[x as int] as int % 16] { skip } else { next }, ..s }),
            Instruction::SkipKeyReleased { x } =>
                Ok(MachineState { pc: if !s.key[s.v[x as int] as int % 16] { skip } else { next }, ..s }),
            Instruction::ReadDelay { x } => Ok(s.with_reg(x as int, s.delay_timer).advanced(2)),
            Instruction::WaitKey { x } => match first_pressed_from(s.key, 0) {
                Some(k) => Ok(s.with_reg(x as int, k).advanced(2)),
                None => Ok(s),
            },
            Instruction::SetDelay { x } => Ok(MachineState { delay_timer: s.v[x as int], pc: next, ..s }),
            Instruction::SetSound { x } => Ok(MachineState { sound_timer: s.v[x as int], pc: next, ..s }),
            Instruction::AddIndex { x } => {
                let sum = s.i + s.v[x as int];
                Ok(MachineState {
                    i: (sum % 0x1000) as u16,
                    v: s.v.update(15, if sum > 0xFFF { 1 } else { 0 }),
                    pc: next,
                    ..s
                })
            },
            Instruction::FontGlyph { x } =>
                Ok(MachineState { i: ((s.v[x as int] % 16) * GLYPH_BYTES) as u16, pc: next, ..s }),
            Instruction::StoreBcd { x } => if s.i + 3 > MEMORY_SIZE {
                Err(Chip8Error::MemoryOutOfBounds)
            } else {
                let a = s.v[x as int];
                Ok(MachineState {
                    memory: s.memory.update(s.i as int, a / 100).update(s.i + 1, (a / 10) % 10)
                        .update(s.i + 2, a % 10),
                    pc: next,
                    ..s
                })
            },
            Instruction::StoreRegs { x } => if s.i + x + 1 > MEMORY_SIZE {
                Err(Chip8Error::MemoryOutOfBounds)
            } else {
                Ok(MachineState {
                    memory: Seq::new(s.memory.len(), |a: int|
                        if s.i <= a <= s.i + x { s.v[a - s.i] } else { s.memory[a] }),
                    pc: next,
                    ..s
                })
            },
            Instruction::LoadRegs { x } => if s.i + x + 1 > MEMORY_SIZE {
                Err(Chip8Error::MemoryOutOfBounds)
            } else {
                Ok(MachineState {
                    v: Seq::new(s.v.len(), |r: int| if r <= x { s.memory[s.i + r] } else { s.v[r] }),
                    pc: next,
                    ..s
                })
            },
        }
    }
}

/// The instruction word at `s.pc`, big-endian, if both its bytes lie in memory.
pub open spec fn fetch_spec(s: MachineState) -> Result<u16, Chip8Error> {
    if s.pc + 1 < MEMORY_SIZE {
        Ok((s.memory[s.pc as int] * 256 + s.memory[s.pc + 1]) as u16)
    } else {
        Err(Chip8Error::MemoryOutOfBounds)
    }
}

/// One fetch-decode-execute cycle.
pub open spec fn step_spec(s: MachineState, rnd: u8) -> Result<MachineState, Chip8Error> {
    match fetch_spec(s) {
        Err(e) => Err(e),
        Ok(op) => match decode_spec(op) {
            None => Err(Chip8Error::UnknownInstruction(op)),
            Some(ins) => exec_spec(s, ins, rnd),
        },
    }
}

/// `after` is what `expected` asks for: the new state on success, and on
/// failure the same error with the state untouched.
pub open spec fn committed(
    before: MachineState,
    after: MachineState,
    r: Result<(), Chip8Error>,
    expected: Result<MachineState, Chip8Error>,
) -> bool {
    match expected {
        Ok(t) => r is Ok && after == t,
        Err(e) => r == Err::<(), Chip8Error>(e) && after == before,
    }
}

/// Instructions that only move the program counter, or the stack with it,
/// or clear the screen.
spec fn is_flow(ins: Instruction) -> bool {
    match ins {
        Instruction::ClearScreen | Instruction::Return | Instruction::Jump { .. }
        | Instruction::Call { .. } | Instruction::SkipEqByte { .. }
        | Instruction::SkipNeByte { .. } | Instruction::SkipEqReg { .. }
        | Instruction::SkipNeReg { .. } | Instruction::JumpOffset { .. } => true,
        _ => false,
    }
}

/// Instructions that compute a register value from registers and immediates.
spec fn is_alu(ins: Instruction) -> bool {
    match ins {
        Instruction::LoadByte { .. } | Instruction::AddByte { .. }
        | Instruction::Move { .. } | Instruction::Or { .. } | Instruction::And { .. }
        | Instruction::Xor { .. } | Instruction::AddReg { .. } | Instruction::SubReg { .. }
        | Instruction::ShiftRight { .. } | Instruction::SubNeg { .. }
        | Instruction::ShiftLeft { .. } | Instruction::Random { .. } => true,
        _ => false,
    }
}

/// Instructions on keys, timers and the address register.
spec fn is_io(ins: Instruction) -> bool {
    match ins {
        Instruction::LoadIndex { .. } | Instruction::SkipKeyPressed { .. }
        | Instruction::SkipKeyReleased { .. } | Instruction::ReadDelay { .. }
        | Instruction::WaitKey { .. } | Instruction::SetDelay { .. }
        | Instruction::SetSound { .. } | Instruction::AddIndex { .. }
        | Instruction::FontGlyph { .. } => true,
        _ => false,
    }
}

/// A vector of `n` copies of `val`.
pub fn filled<T: Copy>(val: T, n: usize) -> (r: Vec<T>)
    ensures
        r@ == Seq::new(n as nat, |k: int| val),
{
    let mut r: Vec<T> = Vec::new();
    while r.len() < n
        invariant
            r@.len() <= n,
            forall|q: int| 0 <= q < r@.len() ==> #[trigger] r@[q] == val,
        decreases n - r@.len(),
    {
        r.push(val);
    }
    assert(r@ =~= Seq::new(n as nat, |k: int| val));
    r
}

/// A copy of a framebuffer.
fn copy_pixels(gfx: &Vec<bool>) -> (r: Vec<bool>)
    ensures
        r@ == gfx@,
{
    let mut r: Vec<bool> = Vec::new();
    while r.len() < gfx.len()
        invariant
            r@.len() <= gfx@.len(),
            forall|q: int| 0 <= q < r@.len() ==> #[trigger] r@[q] == gfx@[q],
        decreases gfx@.len() - r@.len(),
    {
        r.push(gfx[r.len()]);
    }
    assert(r@ =~= gfx@);
    r
}

/// Relies on `rand::random::<u8>`: a byte from the thread-local generator.
/// Nothing is promised of its value.
#[verifier::external_body]
fn random_byte() -> (r: u8) {
    rand::random::<u8>()
}

/// Copies `v[0..=x]` into `memory[base..=base + x]`.
fn store_registers(memory: &mut Vec<u8>, v: &Vec<u8>, base: usize, x: usize)
    requires
        x < v@.len(),
        base + x < old(memory)@.len(),
    ensures
        final(memory)@ == Seq::new(old(memory)@.len(), |a: int|
            if base <= a <= base + x { v@[a - base] } else { old(memory)@[a] }),
{
    let ghost m0 = old(memory)@;
    let len: usize = memory.len();
    let mut r: usize = 0;
    while r <= x
        invariant
            len == m0.len(),
            x < v@.len(),
            base + x < m0.len(),
            r <= x + 1,
            memory@ =~= Seq::new(m0.len(), |a: int| if base <= a < base + r { v@[a - base] } else { m0[a] }),
        decreases x + 1 - r,
    {
        memory.set(base + r, v[r]);
        r = r + 1;
    }
    assert(memory@ =~= Seq::new(m0.len(), |a: int| if base <= a <= base + x { v@[a - base] } else { m0[a] }));
}

/// Copies `memory[base..=base + x]` into `v[0..=x]`.
fn load_registers(v: &mut Vec<u8>, memory: &Vec<u8>, base: usize, x: usize)
    requires
        x < old(v)@.len(),
        base + x < memory@.len(),
    ensures
        final(v)@ == Seq::new(old(v)@.len(), |k: int| if k <= x { memory@[base + k] } else { old(v)@[k] }),
{
    let ghost v0 = old(v)@;
    let len: usize = memory.len();
    let mut r: usize = 0;
    while r <= x
        invariant
            len == memory@.len(),
            x < v0.len(),
            base + x < memory@.len(),
            r <= x + 1,
            v@ =~= Seq::new(v0.len(), |k: int| if k < r { memory@[base + k] } else { v0[k] }),
        decreases x + 1 - r,
    {
        v.set(r, memory[base + r]);
        r = r + 1;
    }
    assert(v@ =~= Seq::new(v0.len(), |k: int| if k <= x { memory@[base + k] } else { v0[k] }));
}

/// The lowest index of a key that is held down, if any.
pub fn first_pressed(key: &Vec<bool>) -> (r: Option<u8>)
    requires
        key@.len() == REGISTER_COUNT,
    ensures
        r == first_pressed_from(key@, 0),
        r matches Some(k) ==> k < 16,
{
    let mut k: usize = 0;
    while k < REGISTER_COUNT
        invariant
            k <= 16,
            key@.len() == 16,
            first_pressed_from(key@, 0) == first_pressed_from(key@, k as int),
        decreases 16 - k,
    {
        if key[k] {
            return Some(k as u8);
        }
        k = k + 1;
    }
    None
}

/// The state right after start-up: font at address 0, everything else zero,
/// execution about to start at `PROGRAM_START`.
pub open spec fn initial_state() -> MachineState {
    MachineState {
        gfx: Seq::new(SCREEN_PIXELS as nat, |p: int| false),
        key: Seq::new(REGISTER_COUNT as nat, |k: int| false),
        pc: PROGRAM_START as u16,
        i: 0,
        sp: 0,
        v: Seq::new(REGISTER_COUNT as nat, |k: int| 0u8),
        stack: Seq::new(STACK_DEPTH as nat, |k: int| 0u16),
        memory: font_spec() + Seq::new((MEMORY_SIZE - FONT_BYTES) as nat, |a: int| 0u8),
        delay_timer: 0,
        sound_timer: 0,
        draw_flag: true,
    }
}

/// The state with `program` copied to memory from `PROGRAM_START` on.
pub open spec fn with_program(s: MachineState, program: Seq<u8>) -> MachineState {
    MachineState {
        memory: Seq::new(s.memory.len(), |a: int|
            if PROGRAM_START <= a < PROGRAM_START + program.len() { program[a - PROGRAM_START] } else { s.memory[a] }),
        ..s
    }
}

/// A counter after one timer tick: one less, but never below zero.
pub open spec fn tick(t: u8) -> u8 {
    if t > 0 { (t - 1) as u8 } else { 0 }
}

impl Chip8 {
    /// The machine is well formed.
    pub open spec fn wf(&self) -> bool {
        self@.wf()
    }

    /// Sets register `x` and moves to the next instruction.
    fn set_reg_and_advance(&mut self, x: u8, val: u8)
        requires
            old(self).wf(),
            x < 16,
            old(self).pc + 2 < 0x10000,
        ensures
            final(self)@ == old(self)@.with_reg(x as int, val).advanced(2),
            final(self).wf(),
    {
        self.v.set(x as usize, val);
        self.pc = self.pc + 2;
    }

    /// Writes `result` into `VX`, then `flag` into `VF`, and moves on.
    fn set_alu_result(&mut self, x: u8, result: u8, flag: u8)
        requires
            old(self).wf(),
            x < 16,
            old(self).pc + 2 < 0x10000,
        ensures
            final(self)@ == alu_result(old(self)@, x as int, result, flag),
            final(self).wf(),
    {
        self.v.set(x as usize, result);
        self.v.set(FLAG_REGISTER, flag);
        self.pc = self.pc + 2;
    }

    /// Control flow: clear, call, return, jumps and skips on registers.
    fn exec_flow(&mut self, ins: Instruction) -> (r: Result<(), Chip8Error>)
        requires
            old(self).wf(),
            ins.wf(),
            old(self).pc + 1 < MEMORY_SIZE,
            is_flow(ins),
        ensures
            final(self).wf(),
            committed(old(self)@, final(self)@, r, exec_spec(old(self)@, ins, 0)),
    {
        let next: u16 = self.pc + 2;
        let skip: u16 = self.pc + 4;
        match ins {
            Instruction::ClearScreen => {
                self.gfx = filled(false, SCREEN_PIXELS);
                self.draw_flag = true;
                self.pc = next;
                Ok(())
            },
            Instruction::Return => {
                if self.sp == 0 {
                    return Err(Chip8Error::StackUnderflow);
                }
                self.sp = self.sp - 1;
                self.pc = self.stack[self.sp as usize];
                Ok(())
            },
            Instruction::Jump { nnn } => {
                self.pc = nnn;
                Ok(())
            },
            Instruction::Call { nnn } => {
                if self.sp as usize >= STACK_DEPTH {
                    return Err(Chip8Error::StackOverflow);
                }
                self.stack.set(self.sp as usize, next);
                self.sp = self.sp + 1;
                self.pc = nnn;
                Ok(())
            },
            Instruction::SkipEqByte { x, nn } => {
                self.pc = if self.v[x as usize] == nn { skip } else { next };
                Ok(())
            },
            Instruction::SkipNeByte { x, nn } => {
                self.pc = if self.v[x as usize] != nn { skip } else { next };
                Ok(())
            },
            Instruction::SkipEqReg { x, y } => {
                self.pc = if self.v[x as usize] == self.v[y as usize] { skip } else { next };
                Ok(())
            },
            Instruction::SkipNeReg { x, y } => {
                self.pc = if self.v[x as usize] != self.v[y as usize] { skip } else { next };
                Ok(())
            },
            Instruction::JumpOffset { nnn } => {
                self.pc = nnn + self.v[0] as u16;
                Ok(())
            },
            _ => {
                // excluded by `is_flow`
                assert(false);
                Ok(())
            },
        }
    }

    /// Register loads, register arithmetic and logic, and random bytes.
    fn exec_alu(&mut self, ins: Instruction, rnd: u8) -> (r: Result<(), Chip8Error>)
        requires
            old(self).wf(),
            ins.wf(),
            old(self).pc + 1 < MEMORY_SIZE,
            is_alu(ins),
        ensures
            final(self).wf(),
            committed(old(self)@, final(self)@, r, exec_spec(old(self)@, ins, rnd)),
    {
        match ins {
            Instruction::LoadByte { x, nn } => self.set_reg_and_advance(x, nn),
            Instruction::AddByte { x, nn } => {
                let sum: u16 = self.v[x as usize] as u16 + nn as u16;
                self.set_reg_and_advance(x, (sum % 256) as u8);
            },
            Instruction::Move { x, y } => {
                let b = self.v[y as usize];
                self.set_reg_and_advance(x, b);
            },
            Instruction::Or { x, y } => {
                let val = self.v[x as usize] | self.v[y as usize];
                self.set_reg_and_advance(x, val);
            },
            Instruction::And { x, y } => {
                let val = self.v[x as usize] & self.v[y as usize];
                self.set_reg_and_advance(x, val);
            },
            Instruction::Xor { x, y } => {
                let val = self.v[x as usize] ^ self.v[y as usize];
                self.set_reg_and_advance(x, val);
            },
            Instruction::AddReg { x, y } => {
                let sum: u16 = self.v[x as usize] as u16 + self.v[y as usize] as u16;
                let carry: u8 = if sum > 255 { 1 } else { 0 };
                self.set_alu_result(x, (sum % 256) as u8, carry);
            },
            Instruction::SubReg { x, y } => {
                let a = self.v[x as usize];
                let b = self.v[y as usize];
                let diff: u8 = if a >= b { a - b } else { (256u16 + a as u16 - b as u16) as u8 };
                let no_borrow: u8 = if b > a { 0 } else { 1 };
                self.set_alu_result(x, diff, no_borrow);
            },
            Instruction::ShiftRight { x, .. } => {
                let a = self.v[x as usize];
                self.set_alu_result(x, a / 2, a % 2);
            },
            Instruction::SubNeg { x, y } => {
                let a = self.v[x as usize];
                let b = self.v[y as usize];
                let diff: u8 = if b >= a { b - a } else { (256u16 + b as u16 - a as u16) as u8 };
                let no_borrow: u8 = if a > b { 0 } else { 1 };
                self.set_alu_result(x, diff, no_borrow);
            },
            Instruction::ShiftLeft { x, .. } => {
                let a = self.v[x as usize];
                let doubled: u16 = a as u16 * 2;
                self.set_alu_result(x, (doubled % 256) as u8, a / 128);
            },
            Instruction::Random { x, nn } => self.set_reg_and_advance(x, rnd & nn),
            _ => {
                // excluded by `is_alu`
                assert(false);
            },
        }
        Ok(())
    }

    /// Sprite drawing.
    fn exec_draw(&mut self, x: u8, y: u8, n: u8) -> (r: Result<(), Chip8Error>)
        requires
            old(self).wf(),
            x < 16,
            y < 16,
            n < 16,
            old(self).pc + 1 < MEMORY_SIZE,
        ensures
            final(self).wf(),
            committed(old(self)@, final(self)@, r, exec_spec(old(self)@, Instruction::Draw { x, y, n }, 0)),
    {
        if self.i as usize + n as usize > MEMORY_SIZE {
            return Err(Chip8Error::MemoryOutOfBounds);
        }
        let vx = self.v[x as usize];
        let vy = self.v[y as usize];
        let collision = draw_sprite(&mut self.gfx, &self.memory, self.i as usize, n, vx, vy);
        self.v.set(FLAG_REGISTER, if collision { 1 } else { 0 });
        self.draw_flag = true;
        self.pc = self.pc + 2;
        Ok(())
    }

    /// Keys, timers and the address register.
    fn exec_io(&mut self, ins: Instruction) -> (r: Result<(), Chip8Error>)
        requires
            old(self).wf(),
            ins.wf(),
            old(self).pc + 1 < MEMORY_SIZE,
            is_io(ins),
        ensures
            final(self).wf(),
            committed(old(self)@, final(self)@, r, exec_spec(old(self)@, ins, 0)),
    {
        let next: u16 = self.pc + 2;
        let skip: u16 = self.pc + 4;
        match ins {
            Instruction::LoadIndex { nnn } => {
                self.i = nnn;
                self.pc = next;
            },
            Instruction::SkipKeyPressed { x } => {
                let k = self.v[x as usize] as usize % 16;
                self.pc = if self.key[k] { skip } else { next };
            },
            Instruction::SkipKeyReleased { x } => {
                let k = self.v[x as usize] as usize % 16;
                self.pc = if !self.key[k] { skip } else { next };
            },
            Instruction::ReadDelay { x } => {
                let d = self.delay_timer;
                self.set_reg_and_advance(x, d);
            },
            Instruction::WaitKey { x } => {
                match first_pressed(&self.key) {
                    Some(k) => self.set_reg_and_advance(x, k),
                    None => {},
                }
            },
            Instruction::SetDelay { x } => {
                self.delay_timer = self.v[x as usize];
                self.pc = next;
            },
            Instruction::SetSound { x } => {
                self.sound_timer = self.v[x as usize];
                self.pc = next;
            },
            Instruction::AddIndex { x } => {
                let sum: u16 = self.i + self.v[x as usize] as u16;
                self.i = sum % 0x1000;
                self.v.set(FLAG_REGISTER, if sum > 0xFFF { 1 } else { 0 });
                self.pc = next;
            },
            Instruction::FontGlyph { x } => {
                let digit: u16 = (self.v[x as usize] % 16) as u16;
                assert(digit < 16);
                self.i = digit * 5;
                self.pc = next;
            },
            _ => {
                // excluded by `is_io`
                assert(false);
            },
        }
        Ok(())
    }

    /// Stores the decimal digits of `VX` at `I`, `I + 1` and `I + 2`.
    fn exec_bcd(&mut self, x: u8) -> (r: Result<(), Chip8Error>)
        requires
            old(self).wf(),
            x < 16,
            old(self).pc + 1 < MEMORY_SIZE,
        ensures
            final(self).wf(),
            committed(old(self)@, final(self)@, r, exec_spec(old(self)@, Instruction::StoreBcd { x }, 0)),
    {
        let i = self.i as usize;
        if i + 3 > MEMORY_SIZE {
            return Err(Chip8Error::MemoryOutOfBounds);
        }
        let a = self.v[x as usize];
        self.memory.set(i, a / 100);
        self.memory.set(i + 1, (a / 10) % 10);
        self.memory.set(i + 2, a % 10);
        self.pc = self.pc + 2;
        Ok(())
    }

    /// Copies `V0..=VX` to memory at `I`.
    fn exec_store_regs(&mut self, x: u8) -> (r: Result<(), Chip8Error>)
        requires
            old(self).wf(),
            x < 16,
            old(self).pc + 1 < MEMORY_SIZE,
        ensures
            final(self).wf(),
            committed(old(self)@, final(self)@, r, exec_spec(old(self)@, Instruction::StoreRegs { x }, 0)),
    {
        let base = self.i as usize;
        if base + x as usize + 1 > MEMORY_SIZE {
            return Err(Chip8Error::MemoryOutOfBounds);
        }
        store_registers(&mut self.memory, &self.v, base, x as usize);
        self.pc = self.pc + 2;
        Ok(())
    }

    /// Copies memory at `I` into `V0..=VX`.
    fn exec_load_regs(&mut self, x: u8) -> (r: Result<(), Chip8Error>)
        requires
            old(self).wf(),
            x < 16,
            old(self).pc + 1 < MEMORY_SIZE,
        ensures
            final(self).wf(),
            committed(old(self)@, final(self)@, r, exec_spec(old(self)@, Instruction::LoadRegs { x }, 0)),
    {
        let base = self.i as usize;
        if base + x as usize + 1 > MEMORY_SIZE {
            return Err(Chip8Error::MemoryOutOfBounds);
        }
        load_registers(&mut self.v, &self.memory, base, x as usize);
        self.pc = self.pc + 2;
        Ok(())
    }

    /// A machine in its start-up state, with no program loaded.
    pub fn new() -> (r: Chip8)
        ensures
            r.wf(),
            r@ == initial_state(),
    {
        let mut memory = font_set();
        while memory.len() < MEMORY_SIZE
            invariant
                FONT_BYTES <= memory@.len() <= MEMORY_SIZE,
                memory@.subrange(0, FONT_BYTES as int) == font_spec(),
                forall|a: int| FONT_BYTES <= a < memory@.len() ==> #[trigger] memory@[a] == 0,
            decreases MEMORY_SIZE - memory@.len(),
        {
            memory.push(0);
            assert(memory@.subrange(0, FONT_BYTES as int) =~= font_spec());
        }
        assert(memory@ =~= initial_state().memory);
        Chip8 {
            gfx: filled(false, SCREEN_PIXELS),
            key: filled(false, REGISTER_COUNT),
            pc: PROGRAM_START as u16,
            i: 0,
            sp: 0,
            v: filled(0u8, REGISTER_COUNT),
            stack: filled(0u16, STACK_DEPTH),
            memory,
            delay_timer: 0,
            sound_timer: 0,
            draw_flag: true,
        }
    }

    /// Copies a program image into memory at `PROGRAM_START`; an image
    /// longer than `MAX_PROGRAM_SIZE` is refused and nothing changes.
    pub fn load_program(&mut self, program: &Vec<u8>) -> (r: Result<(), Chip8Error>)
        requires
            old(self).wf(),
        ensures
            final(self).wf(),
            program@.len() > MAX_PROGRAM_SIZE ==> r == Err::<(), Chip8Error>(Chip8Error::ProgramTooLarge)
                && final(self)@ == old(self)@,
            program@.len() <= MAX_PROGRAM_SIZE ==> r is Ok && final(self)@ == with_program(old(self)@, program@),
    {
        if program.len() > MAX_PROGRAM_SIZE {
            return Err(Chip8Error::ProgramTooLarge);
        }
        let ghost m0 = self.memory@;
        let mut k: usize = 0;
        while k < program.len()
            invariant
                program@.len() <= MAX_PROGRAM_SIZE,
                k <= program@.len(),
                m0.len() == MEMORY_SIZE,
                self.memory@ =~= Seq::new(m0.len(), |a: int|
                    if PROGRAM_START <= a < PROGRAM_START + k { program@[a - PROGRAM_START] } else { m0[a] }),
                self.gfx == old(self).gfx,
                self.key == old(self).key,
                self.v == old(self).v,
                self.stack == old(self).stack,
                self.pc == old(self).pc,
                self.i == old(self).i,
                self.sp == old(self).sp,
                self.delay_timer == old(self).delay_timer,
                self.sound_timer == old(self).sound_timer,
                self.draw_flag == old(self).draw_flag,
                m0 == old(self).memory@,
            decreases program@.len() - k,
        {
            self.memory.set(PROGRAM_START + k, program[k]);
            k = k + 1;
        }
        assert(self.memory@ =~= with_program(old(self)@, program@).memory);
        Ok(())
    }

    /// Executes one decoded instruction located at `pc`, with `rnd` as the
    /// byte that a random instruction draws. On failure nothing changes.
    pub fn execute(&mut self, ins: Instruction, rnd: u8) -> (r: Result<(), Chip8Error>)
        requires
            old(self).wf(),
            ins.wf(),
        ensures
            final(self).wf(),
            committed(old(self)@, final(self)@, r, exec_spec(old(self)@, ins, rnd)),
    {
        if self.pc as usize + 1 >= MEMORY_SIZE {
            return Err(Chip8Error::MemoryOutOfBounds);
        }
        match ins {
            Instruction::Draw { x, y, n } => self.exec_draw(x, y, n),
            Instruction::StoreBcd { x } => self.exec_bcd(x),
            Instruction::StoreRegs { x } => self.exec_store_regs(x),
            Instruction::LoadRegs { x } => self.exec_load_regs(x),
            Instruction::ClearScreen | Instruction::Return | Instruction::Jump { .. }
            | Instruction::Call { .. } | Instruction::SkipEqByte { .. }
            | Instruction::SkipNeByte { .. } | Instruction::SkipEqReg { .. }
            | Instruction::SkipNeReg { .. } | Instruction::JumpOffset { .. } => self.exec_flow(ins),
            Instruction::LoadByte { .. } | Instruction::AddByte { .. }
            | Instruction::Move { .. } | Instruction::Or { .. } | Instruction::And { .. }
            | Instruction::Xor { .. } | Instruction::AddReg { .. } | Instruction::SubReg { .. }
            | Instruction::ShiftRight { .. } | Instruction::SubNeg { .. }
            | Instruction::ShiftLeft { .. } | Instruction::Random { .. } => self.exec_alu(ins, rnd),
            _ => self.exec_io(ins),
        }
    }

    /// Reads the big-endian instruction word at `pc`.
    pub fn fetch(&self) -> (r: Result<u16, Chip8Error>)
        requires
            self.wf(),
        ensures
            r == fetch_spec(self@),
    {
        let pc = self.pc as usize;
        if pc + 1 >= MEMORY_SIZE {
            return Err(Chip8Error::MemoryOutOfBounds);
        }
        let hi = self.memory[pc] as u16;
        let lo = self.memory[pc + 1] as u16;
        Ok(hi * 256 + lo)
    }

    /// One fetch-decode-execute cycle, with `rnd` as the byte that a random
    /// instruction draws. On failure nothing changes.
    pub fn step_with_random(&mut self, rnd: u8) -> (r: Result<(), Chip8Error>)
        requires
            old(self).wf(),
        ensures
            final(self).wf(),
            committed(old(self)@, final(self)@, r, step_spec(old(self)@, rnd)),
    {
        let op = match self.fetch() {
            Ok(op) => op,
            Err(e) => return Err(e),
        };
        match decode(op) {
            Some(ins) => self.execute(ins, rnd),
            None => Err(Chip8Error::UnknownInstruction(op)),
        }
    }

    /// One fetch-decode-execute cycle; a random instruction draws its byte
    /// from the thread-local generator. The outcome is that of
    /// [`Chip8::step_with_random`] for some byte.
    pub fn step(&mut self) -> (r: Result<(), Chip8Error>)
        requires
            old(self).wf(),
        ensures
            final(self).wf(),
            exists|rnd: u8| committed(old(self)@, final(self)@, r, #[trigger] step_spec(old(self)@, rnd)),
    {
        let rnd: u8 = match self.fetch() {
            Ok(op) => match decode(op) {
                Some(Instruction::Random { .. }) => random_byte(),
                _ => 0,
            },
            Err(_) => 0,
        };
        let r = self.step_with_random(rnd);
        assert(committed(old(self)@, self@, r, step_spec(old(self)@, rnd)));
        r
    }

    /// One timer tick: each nonzero counter goes down by one.
    pub fn tick_timers(&mut self)
        requires
            old(self).wf(),
        ensures
            final(self).wf(),
            final(self)@ == (MachineState {
                delay_timer: tick(old(self)@.delay_timer),
                sound_timer: tick(old(self)@.sound_timer),
                ..old(self)@
            }),
    {
        if self.delay_timer > 0 {
            self.delay_timer = self.delay_timer - 1;
        }
        if self.sound_timer > 0 {
            self.sound_timer = self.sound_timer - 1;
        }
    }

    /// Records whether key `k` is held down.
    pub fn set_key(&mut self, k: u8, pressed: bool)
        requires
            old(self).wf(),
            k < 16,
        ensures
            final(self).wf(),
            final(self)@ == (MachineState { key: old(self)@.key.update(k as int, pressed), ..old(self)@ }),
    {
        self.key.set(k as usize, pressed);
    }

    /// Hands out the framebuffer if it changed since the last frame was
    /// taken, and clears the draw flag.
    pub fn take_frame(&mut self) -> (r: Option<Vec<bool>>)
        requires
            old(self).wf(),
        ensures
            final(self).wf(),
            old(self).draw_flag ==> (r matches Some(f) && f@ == old(self)@.gfx),
            old(self).draw_flag ==> final(self)@ == (MachineState { draw_flag: false, ..old(self)@ }),
            !old(self).draw_flag ==> r is None && final(self)@ == old(self)@,
    {
        if !self.draw_flag {
            return None;
        }
        self.draw_flag = false;
        Some(copy_pixels(&self.gfx))
    }
}

} // verus!
