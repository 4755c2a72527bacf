use vstd::prelude::*;

verus! {

/// One decoded CHIP-8 instruction. Register operands `x` and `y` are
/// register indices, `nn` is an immediate byte, `nnn` a 12-bit address and
/// `n` a 4-bit sprite height.
#[derive(Debug, Clone, Copy, PartialEq, Eq, Structural)]
pub enum Instruction {
    /// `00E0`
    ClearScreen,
    /// `00EE`
    Return,
    /// `1NNN`
    Jump { nnn: u16 },
    /// `2NNN`
    Call { nnn: u16 },
    /// `3XNN`
    SkipEqByte { x: u8, nn: u8 },
    /// `4XNN`
    SkipNeByte { x: u8, nn: u8 },
    /// `5XY0`
    SkipEqReg { x: u8, y: u8 },
    /// `6XNN`
    LoadByte { x: u8, nn: u8 },
    /// `7XNN`
    AddByte { x: u8, nn: u8 },
    /// `8XY0`
    Move { x: u8, y: u8 },
    /// `8XY1`
    Or { x: u8, y: u8 },
    /// `8XY2`
    And { x: u8, y: u8 },
    /// `8XY3`
    Xor { x: u8, y: u8 },
    /// `8XY4`
    AddReg { x: u8, y: u8 },
    /// `8XY5`
    SubReg { x: u8, y: u8 },
    /// `8XY6`
    ShiftRight { x: u8, y: u8 },
    /// `8XY7`
    SubNeg { x: u8, y: u8 },
    /// `8XYE`
    ShiftLeft { x: u8, y: u8 },
    /// `9XY0`
    SkipNeReg { x: u8, y: u8 },
    /// `ANNN`
    LoadIndex { nnn: u16 },
    /// `BNNN`
    JumpOffset { nnn: u16 },
    /// `CXNN`
    Random { x: u8, nn: u8 },
    /// `DXYN`
    Draw { x: u8, y: u8, n: u8 },
    /// `EX9E`
    SkipKeyPressed { x: u8 },
    /// `EXA1`
    SkipKeyReleased { x: u8 },
    /// `FX07`
    ReadDelay { x: u8 },
    /// `FX0A`
    WaitKey { x: u8 },
    /// `FX15`
    SetDelay { x: u8 },
    /// `FX18`
    SetSound { x: u8 },
    /// `FX1E`
    AddIndex { x: u8 },
    /// `FX29`
    FontGlyph { x: u8 },
    /// `FX33`
    StoreBcd { x: u8 },
    /// `FX55`
    StoreRegs { x: u8 },
    /// `FX65`
    LoadRegs { x: u8 },
}

impl Instruction {
    /// Every operand fits the nibbles it was decoded from.
    pub open spec fn wf(self) -> bool {
        match self {
            Instruction::ClearScreen | Instruction::Return => true,
            Instruction::Jump { nnn } | Instruction::Call { nnn } | Instruction::LoadIndex { nnn }
            | Instruction::JumpOffset { nnn } => nnn < 0x1000,
            Instruction::SkipEqByte { x, .. } | Instruction::SkipNeByte { x, .. }
            | Instruction::LoadByte { x, .. } | Instruction::AddByte { x, .. }
            | Instruction::Random { x, .. } => x < 16,
            Instruction::SkipEqReg { x, y } | Instruction::SkipNeReg { x, y }
            | Instruction::Move { x, y } | Instruction::Or { x, y } | Instruction::And { x, y }
            | Instruction::Xor { x, y } | Instruction::AddReg { x, y } | Instruction::SubReg { x, y }
            | Instruction::ShiftRight { x, y } | Instruction::SubNeg { x, y }
            | Instruction::ShiftLeft { x, y } => x < 16 && y < 16,
            Instruction::Draw { x, y, n } => x < 16 && y < 16 && n < 16,
            Instruction::SkipKeyPressed { x } | Instruction::SkipKeyReleased { x }
            | Instruction::ReadDelay { x } | Instruction::WaitKey { x }
            | Instruction::SetDelay { x } | Instruction::SetSound { x }
            | Instruction::AddIndex { x } | Instruction::FontGlyph { x }
            | Instruction::StoreBcd { x } | Instruction::StoreRegs { x }
            | Instruction::LoadRegs { x } => x < 16,
        }
    }
}

/// The leading nibble of an instruction word.
pub open spec fn op_kind(op: u16) -> int {
    op as int / 0x1000
}

/// The second nibble, usually the register `X`.
pub open spec fn op_x(op: u16) -> u8 {
    ((op as int / 0x100) % 16) as u8
}

/// The third nibble, usually the register `Y`.
pub open spec fn op_y(op: u16) -> u8 {
    ((op as int / 0x10) % 16) as u8
}

/// The last nibble.
pub open spec fn op_n(op: u16) -> u8 {
    (op as int % 16) as u8
}

/// The low byte.
pub open spec fn op_nn(op: u16) -> u8 {
    (op as int % 0x100) as u8
}

/// The low twelve bits.
pub open spec fn op_nnn(op: u16) -> u16 {
    (op as int % 0x1000) as u16
}

/// The instruction that an instruction word denotes, if any.
pub open spec fn decode_spec(op: u16) -> Option<Instruction> {
    let (x, y, n, nn, nnn) = (op_x(op), op_y(op), op_n(op), op_nn(op), op_nnn(op));
    let kind = op_kind(op);
    if kind == 0x0 {
        if op == 0x00E0 {
            Some(Instruction::ClearScreen)
        } else if op == 0x00EE {
            Some(Instruction::Return)
        } else {
            None
        }
    } else if kind == 0x1 {
        Some(Instruction::Jump { nnn })
    } else if kind == 0x2 {
        Some(Instruction::Call { nnn })
    } else if kind == 0x3 {
        Some(Instruction::SkipEqByte { x, nn })
    } else if kind == 0x4 {
        Some(Instruction::SkipNeByte { x, nn })
    } else if kind == 0x5 {
        if n == 0 { Some(Instruction::SkipEqReg { x, y }) } else { None }
    } else if kind == 0x6 {
        Some(Instruction::LoadByte { x, nn })
    } else if kind == 0x7 {
        Some(Instruction::AddByte { x, nn })
    } else if kind == 0x8 {
        if n == 0x0 {
            Some(Instruction::Move { x, y })
        } else if n == 0x1 {
            Some(Instruction::Or { x, y })
        } else if n == 0x2 {
            Some(Instruction::And { x, y })
        } else if n == 0x3 {
            Some(Instruction::Xor { x, y })
        } else if n == 0x4 {
            Some(Instruction::AddReg { x, y })
        } else if n == 0x5 {
            Some(Instruction::SubReg { x, y })
        } else if n == 0x6 {
            Some(Instruction::ShiftRight { x, y })
        } else if n == 0x7 {
            Some(Instruction::SubNeg { x, y })
        } else if n == 0xE {
            Some(Instruction::ShiftLeft { x, y })
        } else {
            None
        }
    } else if kind == 0x9 {
        if n == 0 { Some(Instruction::SkipNeReg { x, y }) } else { None }
    } else if kind == 0xA {
        Some(Instruction::LoadIndex { nnn })
    } else if kind == 0xB {
        Some(Instruction::JumpOffset { nnn })
    } else if kind == 0xC {
        Some(Instruction::Random { x, nn })
    } else if kind == 0xD {
        Some(Instruction::Draw { x, y, n })
    } else if kind == 0xE {
        if nn == 0x9E {
            Some(Instruction::SkipKeyPressed { x })
        } else if nn == 0xA1 {
            Some(Instruction::SkipKeyReleased { x })
        } else {
            None
        }
    } else {
        if nn == 0x07 {
            Some(Instruction::ReadDelay { x })
        } else if nn == 0x0A {
            Some(Instruction::WaitKey { x })
        } else if nn == 0x15 {
            Some(Instruction::SetDelay { x })
        } else if nn == 0x18 {
            Some(Instruction::SetSound { x })
        } else if nn == 0x1E {
            Some(Instruction::AddIndex { x })
        } else if nn == 0x29 {
            Some(Instruction::FontGlyph { x })
        } else if nn == 0x33 {
            Some(Instruction::StoreBcd { x })
        } else if nn == 0x55 {
            Some(Instruction::StoreRegs { x })
        } else if nn == 0x65 {
            Some(Instruction::LoadRegs { x })
        } else {
            None
        }
    }
}

/// Decodes an instruction word into its structured form.
pub fn decode(op: u16) -> (r: Option<Instruction>)
    ensures
        r == decode_spec(op),
        r matches Some(ins) ==> ins.wf(),
{
    let kind: u16 = op / 0x1000;
    let x: u8 = ((op / 0x100) % 16) as u8;
    let y: u8 = ((op / 0x10) % 16) as u8;
    let n: u8 = (op % 16) as u8;
    let nn: u8 = (op % 0x100) as u8;
    let nnn: u16 = op % 0x1000;
    match kind {
        0x0 => {
            if op == 0x00E0 {
                Some(Instruction::ClearScreen)
            } else if op == 0x00EE {
                Some(Instruction::Return)
            } else {
                None
            }
        },
        0x1 => Some(Instruction::Jump { nnn }),
        0x2 => Some(Instruction::Call { nnn }),
        0x3 => Some(Instruction::SkipEqByte { x, nn }),
        0x4 => Some(Instruction::SkipNeByte { x, nn }),
        0x5 => if n == 0 { Some(Instruction::SkipEqReg { x, y }) } else { None },
        0x6 => Some(Instruction::LoadByte { x, nn }),
        0x7 => Some(Instruction::AddByte { x, nn }),
        0x8 => match n {
            0x0 => Some(Instruction::Move { x, y }),
            0x1 => Some(Instruction::Or { x, y }),
            0x2 => Some(Instruction::And { x, y }),
            0x3 => Some(Instruction::Xor { x, y }),
            0x4 => Some(Instruction::AddReg { x, y }),
            0x5 => Some(Instruction::SubReg { x, y }),
            0x6 => Some(Instruction::ShiftRight { x, y }),
            0x7 => Some(Instruction::SubNeg { x, y }),
            0xE => Some(Instruction::ShiftLeft { x, y }),
            _ => None,
        },
        0x9 => if n == 0 { Some(Instruction::SkipNeReg { x, y }) } else { None },
        0xA => Some(Instruction::LoadIndex { nnn }),
        0xB => Some(Instruction::JumpOffset { nnn }),
        0xC => Some(Instruction::Random { x, nn }),
        0xD => Some(Instruction::Draw { x, y, n }),
        0xE => match nn {
            0x9E => Some(Instruction::SkipKeyPressed { x }),
            0xA1 => Some(Instruction::SkipKeyReleased { x }),
            _ => None,
        },
        _ => match nn {
            0x07 => Some(Instruction::ReadDelay { x }),
            0x0A => Some(Instruction::WaitKey { x }),
            0x15 => Some(Instruction::SetDelay { x }),
            0x18 => Some(Instruction::SetSound { x }),
            0x1E => Some(Instruction::AddIndex { x }),
            0x29 => Some(Instruction::FontGlyph { x }),
            0x33 => Some(Instruction::StoreBcd { x }),
            0x55 => Some(Instruction::StoreRegs { x }),
            0x65 => Some(Instruction::LoadRegs { x }),
            _ => None,
        },
    }
}

} // verus!
