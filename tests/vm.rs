use chip8::error::Chip8Error;
use chip8::font::font_set;
use chip8::instruction::{decode, Instruction};
use chip8::machine::Chip8;

fn vm_with(program: &[u8]) -> Chip8 {
    let mut vm = Chip8::new();
    vm.load_program(&program.to_vec()).unwrap();
    vm
}

fn lit_pixels(vm: &Chip8) -> Vec<usize> {
    (0..2048).filter(|&p| vm.gfx[p]).collect()
}

#[test]
fn load_then_add_wraps_past_255() {
    let mut vm = vm_with(&[0x63, 200, 0x73, 100]);
    assert_eq!(vm.step(), Ok(()));
    assert_eq!(vm.step(), Ok(()));
    assert_eq!(vm.v[3], 44);
    assert_eq!(vm.pc, 0x204);
}

#[test]
fn add_byte_without_overflow() {
    let mut vm = vm_with(&[0x6A, 0x10, 0x7A, 0x05]);
    vm.step().unwrap();
    vm.step().unwrap();
    assert_eq!(vm.v[0xA], 0x15);
}

#[test]
fn add_registers_sets_carry() {
    let mut vm = vm_with(&[0x60, 0xF0, 0x61, 0x20, 0x80, 0x14]);
    for _ in 0..3 {
        vm.step().unwrap();
    }
    assert_eq!(vm.v[0], 0x10);
    assert_eq!(vm.v[15], 1);
}

#[test]
fn add_registers_without_carry_clears_flag() {
    let mut vm = vm_with(&[0x6F, 0x01, 0x60, 0x7F, 0x61, 0x80, 0x80, 0x14]);
    for _ in 0..4 {
        vm.step().unwrap();
    }
    assert_eq!(vm.v[0], 0xFF);
    assert_eq!(vm.v[15], 0);
}

#[test]
fn flag_wins_when_destination_is_vf() {
    let mut vm = vm_with(&[0x6F, 0xFF, 0x61, 0x02, 0x8F, 0x14]);
    for _ in 0..3 {
        vm.step().unwrap();
    }
    assert_eq!(vm.v[15], 1);
}

#[test]
fn subtract_and_borrow() {
    let mut vm = vm_with(&[0x60, 0x05, 0x61, 0x07, 0x80, 0x15, 0x62, 0x09, 0x63, 0x04, 0x82, 0x35]);
    for _ in 0..3 {
        vm.step().unwrap();
    }
    assert_eq!(vm.v[0], 0xFE);
    assert_eq!(vm.v[15], 0);
    for _ in 0..3 {
        vm.step().unwrap();
    }
    assert_eq!(vm.v[2], 5);
    assert_eq!(vm.v[15], 1);
}

#[test]
fn reverse_subtract() {
    let mut vm = vm_with(&[0x60, 0x05, 0x61, 0x07, 0x80, 0x17]);
    for _ in 0..3 {
        vm.step().unwrap();
    }
    assert_eq!(vm.v[0], 2);
    assert_eq!(vm.v[15], 1);
}

#[test]
fn shifts_set_flag_from_lost_bit() {
    let mut vm = vm_with(&[0x60, 0x81, 0x80, 0x06, 0x61, 0x81, 0x81, 0x0E]);
    vm.step().unwrap();
    vm.step().unwrap();
    assert_eq!(vm.v[0], 0x40);
    assert_eq!(vm.v[15], 1);
    vm.step().unwrap();
    vm.step().unwrap();
    assert_eq!(vm.v[1], 0x02);
    assert_eq!(vm.v[15], 1);
}

#[test]
fn bitwise_operations() {
    let mut vm = vm_with(&[0x60, 0x0C, 0x61, 0x0A, 0x62, 0x0C, 0x63, 0x0C, 0x80, 0x11, 0x82, 0x12, 0x83, 0x13, 0x84, 0x10]);
    for _ in 0..8 {
        vm.step().unwrap();
    }
    assert_eq!(vm.v[0], 0x0E);
    assert_eq!(vm.v[2], 0x08);
    assert_eq!(vm.v[3], 0x06);
    assert_eq!(vm.v[4], 0x0A);
}

#[test]
fn clear_screen_darkens_everything_and_raises_flag() {
    // I = font glyph 0, draw it, then clear.
    let mut vm = vm_with(&[0xA0, 0x00, 0xD0, 0x05, 0x00, 0xE0]);
    vm.step().unwrap();
    vm.step().unwrap();
    assert!(!lit_pixels(&vm).is_empty());
    assert!(vm.take_frame().is_some());
    assert!(!vm.draw_flag);
    vm.step().unwrap();
    assert!(lit_pixels(&vm).is_empty());
    assert!(vm.draw_flag);
    let frame = vm.take_frame().unwrap();
    assert!(frame.iter().all(|&p| !p));
    assert!(vm.take_frame().is_none());
}

#[test]
fn jump_sets_pc_exactly() {
    let mut vm = vm_with(&[0x1A, 0xBC]);
    vm.step().unwrap();
    assert_eq!(vm.pc, 0xABC);
}

#[test]
fn call_then_return_resumes_after_call() {
    // 0x200: call 0x300; at 0x300: return.
    let mut program = vec![0u8; 0x102];
    program[0] = 0x23;
    program[1] = 0x00;
    program[0x100] = 0x00;
    program[0x101] = 0xEE;
    let mut vm = vm_with(&program);
    vm.step().unwrap();
    assert_eq!(vm.pc, 0x300);
    assert_eq!(vm.sp, 1);
    assert_eq!(vm.stack[0], 0x202);
    vm.step().unwrap();
    assert_eq!(vm.pc, 0x202);
    assert_eq!(vm.sp, 0);
}

#[test]
fn return_on_empty_stack_underflows() {
    let mut vm = vm_with(&[0x00, 0xEE]);
    assert_eq!(vm.step(), Err(Chip8Error::StackUnderflow));
    assert_eq!(vm.pc, 0x200);
}

#[test]
fn seventeenth_call_overflows() {
    let mut vm = vm_with(&[0x22, 0x00]);
    for _ in 0..16 {
        vm.step().unwrap();
    }
    assert_eq!(vm.sp, 16);
    assert_eq!(vm.step(), Err(Chip8Error::StackOverflow));
    assert_eq!(vm.sp, 16);
}

#[test]
fn sprite_wraps_at_right_edge() {
    // V0 = 60, V1 = 0, I = 0x300 holding 0xFF, draw 1 row.
    let mut program = vec![0x60, 60, 0x61, 0, 0xA3, 0x00, 0xD0, 0x11];
    program.resize(0x101, 0);
    program[0x100] = 0xFF;
    let mut vm = vm_with(&program);
    for _ in 0..4 {
        vm.step().unwrap();
    }
    assert_eq!(lit_pixels(&vm), vec![0, 1, 2, 3, 60, 61, 62, 63]);
    assert_eq!(vm.v[15], 0);
    assert!(vm.draw_flag);
}

#[test]
fn sprite_wraps_at_bottom_edge() {
    let mut program = vec![0x60, 0, 0x61, 31, 0xA3, 0x00, 0xD0, 0x12];
    program.resize(0x102, 0);
    program[0x100] = 0x80;
    program[0x101] = 0x80;
    let mut vm = vm_with(&program);
    for _ in 0..4 {
        vm.step().unwrap();
    }
    assert_eq!(lit_pixels(&vm), vec![0, 31 * 64]);
}

#[test]
fn redraw_collides_and_erases() {
    let mut vm = vm_with(&[0xA0, 0x00, 0xD0, 0x05, 0xD0, 0x05]);
    vm.step().unwrap();
    vm.step().unwrap();
    assert_eq!(vm.v[15], 0);
    // Glyph 0 top row 0xF0 lights pixels 0..4.
    assert!(vm.gfx[0] && vm.gfx[3] && !vm.gfx[4]);
    vm.step().unwrap();
    assert_eq!(vm.v[15], 1);
    assert!(lit_pixels(&vm).is_empty());
}

#[test]
fn draw_beyond_memory_fails_without_change() {
    let mut vm = vm_with(&[0xAF, 0xFF, 0xD0, 0x02]);
    vm.step().unwrap();
    assert_eq!(vm.step(), Err(Chip8Error::MemoryOutOfBounds));
    assert_eq!(vm.pc, 0x202);
    assert!(lit_pixels(&vm).is_empty());
}

#[test]
fn skip_if_equal_immediate() {
    let mut vm = vm_with(&[0x62, 0x05, 0x32, 0x05]);
    vm.step().unwrap();
    vm.step().unwrap();
    assert_eq!(vm.pc, 0x206);
    let mut vm = vm_with(&[0x62, 0x05, 0x32, 0x06]);
    vm.step().unwrap();
    vm.step().unwrap();
    assert_eq!(vm.pc, 0x204);
}

#[test]
fn skip_if_not_equal_and_register_forms() {
    let mut vm = vm_with(&[0x62, 0x05, 0x42, 0x06]);
    vm.step().unwrap();
    vm.step().unwrap();
    assert_eq!(vm.pc, 0x206);
    let mut vm = vm_with(&[0x62, 0x05, 0x63, 0x05, 0x52, 0x30]);
    for _ in 0..3 {
        vm.step().unwrap();
    }
    assert_eq!(vm.pc, 0x208);
    let mut vm = vm_with(&[0x62, 0x05, 0x63, 0x05, 0x92, 0x30]);
    for _ in 0..3 {
        vm.step().unwrap();
    }
    assert_eq!(vm.pc, 0x206);
}

#[test]
fn two_loads_scenario() {
    let mut vm = vm_with(&[0x60, 0x0A, 0x61, 0x05]);
    vm.step().unwrap();
    vm.step().unwrap();
    assert_eq!(vm.v[0], 10);
    assert_eq!(vm.v[1], 5);
    assert_eq!(vm.pc, 0x204);
}

#[test]
fn font_glyph_address() {
    let mut vm = vm_with(&[0x64, 0x0A, 0xF4, 0x29]);
    vm.step().unwrap();
    vm.step().unwrap();
    assert_eq!(vm.i, 50);
    assert_eq!(vm.memory[50], 0xF0);
    assert_eq!(vm.memory[53], 0x90);
}

#[test]
fn unknown_instructions_are_reported() {
    for op in [0x0123u16, 0x00E1, 0x5121, 0x8008, 0x912F, 0xE0FF, 0xF0FF] {
        let mut vm = vm_with(&[(op >> 8) as u8, op as u8]);
        assert_eq!(vm.step(), Err(Chip8Error::UnknownInstruction(op)));
        assert_eq!(vm.pc, 0x200);
    }
}

#[test]
fn fetch_past_end_of_memory_fails() {
    let mut vm = Chip8::new();
    vm.pc = 0xFFF;
    assert_eq!(vm.fetch(), Err(Chip8Error::MemoryOutOfBounds));
    assert_eq!(vm.step(), Err(Chip8Error::MemoryOutOfBounds));
}

#[test]
fn oversized_program_is_refused() {
    let mut vm = Chip8::new();
    assert_eq!(vm.load_program(&vec![1u8; 3585]), Err(Chip8Error::ProgramTooLarge));
    assert_eq!(vm.memory[0x200], 0);
    assert_eq!(vm.load_program(&vec![1u8; 3584]), Ok(()));
    assert_eq!(vm.memory[0xFFF], 1);
}

#[test]
fn new_machine_holds_font_and_starts_at_0x200() {
    let vm = Chip8::new();
    assert_eq!(vm.pc, 0x200);
    assert_eq!(&vm.memory[0..80], &font_set()[..]);
    assert_eq!(vm.memory.len(), 4096);
    assert!(vm.memory[80..].iter().all(|&b| b == 0));
    assert_eq!(vm.gfx.len(), 2048);
    assert_eq!(vm.v, vec![0u8; 16]);
}

#[test]
fn index_register_instructions() {
    let mut vm = vm_with(&[0xAF, 0xFE, 0x60, 0x03, 0xF0, 0x1E]);
    for _ in 0..3 {
        vm.step().unwrap();
    }
    assert_eq!(vm.i, 0x001);
    assert_eq!(vm.v[15], 1);
    let mut vm = vm_with(&[0xA1, 0x00, 0x60, 0x03, 0xF0, 0x1E]);
    for _ in 0..3 {
        vm.step().unwrap();
    }
    assert_eq!(vm.i, 0x103);
    assert_eq!(vm.v[15], 0);
}

#[test]
fn jump_with_offset() {
    let mut vm = vm_with(&[0x60, 0x10, 0xB3, 0x00]);
    vm.step().unwrap();
    vm.step().unwrap();
    assert_eq!(vm.pc, 0x310);
}

#[test]
fn random_byte_is_masked() {
    let mut vm = vm_with(&[0xC5, 0x0F, 0xC6, 0x00]);
    assert_eq!(vm.step_with_random(0xAB), Ok(()));
    assert_eq!(vm.v[5], 0x0B);
    vm.v[6] = 9;
    assert_eq!(vm.step(), Ok(()));
    assert_eq!(vm.v[6], 0);
    assert_eq!(vm.pc, 0x204);
}

#[test]
fn decimal_digits_stored() {
    let mut vm = vm_with(&[0x60, 254, 0xA3, 0x00, 0xF0, 0x33]);
    for _ in 0..3 {
        vm.step().unwrap();
    }
    assert_eq!(&vm.memory[0x300..0x303], &[2, 5, 4]);
}

#[test]
fn store_and_load_registers_round_trip() {
    let mut vm = vm_with(&[0x60, 1, 0x61, 2, 0x62, 3, 0xA4, 0x00, 0xF1, 0x55, 0x60, 0, 0x61, 0, 0x62, 0, 0xF2, 0x65]);
    for _ in 0..5 {
        vm.step().unwrap();
    }
    assert_eq!(&vm.memory[0x400..0x403], &[1, 2, 0]);
    for _ in 0..4 {
        vm.step().unwrap();
    }
    assert_eq!(&vm.v[0..3], &[1, 2, 0]);
    assert_eq!(vm.i, 0x400);
}

#[test]
fn timers_count_down_to_zero() {
    let mut vm = vm_with(&[0x60, 2, 0xF0, 0x15, 0xF0, 0x18, 0xF1, 0x07]);
    for _ in 0..3 {
        vm.step().unwrap();
    }
    assert_eq!(vm.delay_timer, 2);
    assert_eq!(vm.sound_timer, 2);
    vm.tick_timers();
    vm.step().unwrap();
    assert_eq!(vm.v[1], 1);
    vm.tick_timers();
    vm.tick_timers();
    assert_eq!(vm.delay_timer, 0);
    assert_eq!(vm.sound_timer, 0);
}

#[test]
fn key_skips_follow_latch() {
    let mut vm = vm_with(&[0x60, 0x07, 0xE0, 0x9E, 0x00, 0x00, 0xE0, 0xA1]);
    vm.set_key(7, true);
    vm.step().unwrap();
    vm.step().unwrap();
    assert_eq!(vm.pc, 0x206);
    vm.step().unwrap();
    assert_eq!(vm.pc, 0x208);
}

#[test]
fn wait_for_key_holds_pc_until_pressed() {
    let mut vm = vm_with(&[0xF3, 0x0A]);
    vm.step().unwrap();
    assert_eq!(vm.pc, 0x200);
    vm.step().unwrap();
    assert_eq!(vm.pc, 0x200);
    vm.set_key(0xC, true);
    vm.set_key(0x9, true);
    vm.step().unwrap();
    assert_eq!(vm.v[3], 0x9);
    assert_eq!(vm.pc, 0x202);
}

#[test]
fn decode_structures_words() {
    assert_eq!(decode(0xD123), Some(Instruction::Draw { x: 1, y: 2, n: 3 }));
    assert_eq!(decode(0x2ABC), Some(Instruction::Call { nnn: 0xABC }));
    assert_eq!(decode(0x8AB7), Some(Instruction::SubNeg { x: 0xA, y: 0xB }));
    assert_eq!(decode(0xF965), Some(Instruction::LoadRegs { x: 9 }));
    assert_eq!(decode(0x00E0), Some(Instruction::ClearScreen));
    assert_eq!(decode(0x0000), None);
}

#[test]
fn execute_decoded_instruction() {
    let mut vm = Chip8::new();
    assert_eq!(vm.execute(Instruction::LoadByte { x: 4, nn: 0x42 }, 0), Ok(()));
    assert_eq!(vm.v[4], 0x42);
    assert_eq!(vm.pc, 0x202);
}
