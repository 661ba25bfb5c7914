use chip8::display::Display;
use chip8::error::Chip8Error;
use chip8::instruction::Instruction;
use chip8::opcode::Opcode;
use chip8::rom::ROM;
use chip8::Chip8;

/// Loads `bytes` at `pc` and runs one cycle.
fn run(chip: &mut Chip8, bytes: &[u8]) -> Result<(), Chip8Error> {
    let pc = chip.pc;
    chip.load_memory(pc, bytes).unwrap();
    chip.cycle()
}

fn lit_pixels(chip: &Chip8) -> Vec<(usize, usize)> {
    let mut lit = Vec::new();
    for row in 0..chip8::HEIGHT {
        for col in 0..chip8::WIDTH {
            if chip.display.get_pixel(row, col) {
                lit.push((row, col));
            }
        }
    }
    lit
}

#[test]
fn scenario_store_immediate_moves_pc_on() {
    let mut chip = Chip8::new();
    chip.load_memory(chip.pc, &[0x63, 0x12]).unwrap();
    chip.cycle().unwrap();
    assert_eq!(chip.var_reg[3], 0x12);
    assert_eq!(chip.pc, 0x202);
}

#[test]
fn scenario_set_index_register() {
    let mut chip = Chip8::new();
    chip.load_memory(chip.pc, &[0xA1, 0x23]).unwrap();
    chip.cycle().unwrap();
    assert_eq!(chip.idx_reg, 0x123);
}

#[test]
fn scenario_skip_if_equal_moves_pc_by_four() {
    let mut chip = Chip8::new();
    chip.var_reg[2] = 0xFA;
    let before = chip.pc;
    chip.load_memory(chip.pc, &[0x32, 0xFA]).unwrap();
    chip.cycle().unwrap();
    assert_eq!(chip.pc, before + 4);
}

#[test]
fn store_immediate_leaves_other_registers() {
    for i in 0..16u8 {
        let mut chip = Chip8::new();
        for j in 0..16 {
            chip.var_reg[j] = 0x10 + j as u8;
        }
        run(&mut chip, &[0x60 | i, 0x77]).unwrap();
        for j in 0..16 {
            if j == i as usize {
                assert_eq!(chip.var_reg[j], 0x77);
            } else {
                assert_eq!(chip.var_reg[j], 0x10 + j as u8);
            }
        }
    }
}

#[test]
fn add_immediate_twice_wraps_modulo_256() {
    let mut chip = Chip8::new();
    chip.var_reg[5] = 0xF0;
    chip.var_reg[0xF] = 0x42;
    chip.load_memory(0x200, &[0x75, 0x20, 0x75, 0x30]).unwrap();
    chip.cycle().unwrap();
    chip.cycle().unwrap();
    assert_eq!(chip.var_reg[5], 0x40);
    // add-immediate leaves the flag alone
    assert_eq!(chip.var_reg[0xF], 0x42);
}

#[test]
fn clear_screen_turns_every_pixel_off() {
    let mut chip = Chip8::new();
    chip.display.flip_pixel(0, 0);
    chip.display.flip_pixel(31, 63);
    chip.display.flip_pixel(17, 40);
    run(&mut chip, &[0x00, 0xE0]).unwrap();
    assert!(lit_pixels(&chip).is_empty());
}

#[test]
fn display_flip_twice_restores_pixel() {
    let mut display = Display::new();
    display.flip_pixel(5, 9);
    assert!(display.get_pixel(5, 9));
    assert!(!display.get_pixel(9, 5));
    display.flip_pixel(5, 9);
    assert!(!display.get_pixel(5, 9));
    display.flip_pixel(3, 3);
    display.clear();
    assert!(!display.get_pixel(3, 3));
}

#[test]
fn jump_ignores_previous_pc() {
    let mut chip = Chip8::new();
    chip.pc = 0x300;
    run(&mut chip, &[0x1A, 0xBC]).unwrap();
    assert_eq!(chip.pc, 0xABC);
}

#[test]
fn call_then_return_resumes_after_call() {
    let mut chip = Chip8::new();
    chip.load_memory(0x200, &[0x23, 0x00]).unwrap();
    chip.load_memory(0x300, &[0x00, 0xEE]).unwrap();
    chip.cycle().unwrap();
    assert_eq!(chip.pc, 0x300);
    assert_eq!(chip.call_stack, vec![0x202]);
    chip.cycle().unwrap();
    assert_eq!(chip.pc, 0x202);
    assert!(chip.call_stack.is_empty());
}

#[test]
fn draw_twice_restores_screen_and_collides() {
    let mut chip = Chip8::new();
    chip.var_reg[0] = 10;
    chip.var_reg[1] = 5;
    chip.idx_reg = 0x50;
    chip.load_memory(0x200, &[0xD0, 0x15, 0xD0, 0x15]).unwrap();
    chip.cycle().unwrap();
    assert_eq!(chip.var_reg[0xF], 0);
    // the glyph of 0: a ring of 14 pixels, four wide and five high
    let lit = lit_pixels(&chip);
    assert_eq!(lit.len(), 14);
    assert!(chip.display.get_pixel(5, 10));
    assert!(chip.display.get_pixel(9, 13));
    assert!(!chip.display.get_pixel(6, 11));
    chip.cycle().unwrap();
    assert_eq!(chip.var_reg[0xF], 1);
    assert!(lit_pixels(&chip).is_empty());
}

#[test]
fn draw_clips_at_right_edge() {
    let mut chip = Chip8::new();
    chip.var_reg[0] = 62;
    chip.var_reg[1] = 0;
    chip.idx_reg = 0x300;
    chip.ram[0x300] = 0xFF;
    run(&mut chip, &[0xD0, 0x11]).unwrap();
    assert_eq!(lit_pixels(&chip), vec![(0, 62), (0, 63)]);
}

#[test]
fn draw_wraps_at_bottom_edge() {
    let mut chip = Chip8::new();
    chip.var_reg[0] = 0;
    chip.var_reg[1] = 30;
    chip.idx_reg = 0x300;
    for i in 0..4 {
        chip.ram[0x300 + i] = 0x80;
    }
    run(&mut chip, &[0xD0, 0x14]).unwrap();
    assert_eq!(lit_pixels(&chip), vec![(0, 0), (1, 0), (30, 0), (31, 0)]);
}

#[test]
fn draw_takes_x_modulo_width() {
    let mut chip = Chip8::new();
    chip.var_reg[0] = 64 + 3;
    chip.var_reg[1] = 2;
    chip.idx_reg = 0x300;
    chip.ram[0x300] = 0x80;
    run(&mut chip, &[0xD0, 0x11]).unwrap();
    assert_eq!(lit_pixels(&chip), vec![(2, 3)]);
}

#[test]
fn draw_reports_collision_with_lit_pixel() {
    let mut chip = Chip8::new();
    chip.display.flip_pixel(4, 7);
    chip.var_reg[2] = 0;
    chip.var_reg[3] = 4;
    chip.idx_reg = 0x300;
    chip.ram[0x300] = 0x01;
    run(&mut chip, &[0xD2, 0x31]).unwrap();
    assert_eq!(chip.var_reg[0xF], 1);
    assert!(!chip.display.get_pixel(4, 7));
}

#[test]
fn skips_not_taken_move_pc_by_two() {
    let cases: [(u8, u8); 4] = [(0x32, 0xFB), (0x42, 0xFA), (0x52, 0x30), (0x92, 0x40)];
    for (hi, lo) in cases {
        let mut chip = Chip8::new();
        chip.var_reg[2] = 0xFA;
        chip.var_reg[3] = 0xFB;
        chip.var_reg[4] = 0xFA;
        let before = chip.pc;
        run(&mut chip, &[hi, lo]).unwrap();
        assert_eq!(chip.pc, before + 2);
    }
}

#[test]
fn key_skips_follow_held_key() {
    let mut chip = Chip8::new();
    chip.var_reg[1] = 0x7;
    chip.set_input_key(Some(0x7));
    run(&mut chip, &[0xE1, 0x9E]).unwrap();
    assert_eq!(chip.pc, 0x204);
    run(&mut chip, &[0xE1, 0xA1]).unwrap();
    assert_eq!(chip.pc, 0x206);
    chip.set_input_key(None);
    run(&mut chip, &[0xE1, 0x9E]).unwrap();
    assert_eq!(chip.pc, 0x208);
    run(&mut chip, &[0xE1, 0xA1]).unwrap();
    assert_eq!(chip.pc, 0x20C);
}

#[test]
fn wait_key_repeats_until_a_key_is_held() {
    let mut chip = Chip8::new();
    run(&mut chip, &[0xF5, 0x0A]).unwrap();
    assert_eq!(chip.pc, 0x200);
    chip.set_input_key(Some(0xC));
    chip.cycle().unwrap();
    assert_eq!(chip.var_reg[5], 0xC);
    assert_eq!(chip.pc, 0x202);
}

#[test]
fn dump_then_load_restores_registers() {
    let mut chip = Chip8::new();
    for j in 0..16 {
        chip.var_reg[j] = 3 * j as u8 + 1;
    }
    chip.idx_reg = 0x400;
    run(&mut chip, &[0xF5, 0x55]).unwrap();
    assert_eq!(&chip.ram[0x400..0x406], &[1, 4, 7, 10, 13, 16]);
    assert_eq!(chip.ram[0x406], 0);
    for j in 0..6 {
        chip.var_reg[j] = 0;
    }
    run(&mut chip, &[0xF5, 0x65]).unwrap();
    for j in 0..16 {
        assert_eq!(chip.var_reg[j], 3 * j as u8 + 1);
    }
}

#[test]
fn register_dump_wraps_at_end_of_memory() {
    let mut chip = Chip8::new();
    chip.var_reg[0] = 0xAA;
    chip.var_reg[1] = 0xBB;
    chip.idx_reg = 0xFFF;
    run(&mut chip, &[0xF1, 0x55]).unwrap();
    assert_eq!(chip.ram[0xFFF], 0xAA);
    assert_eq!(chip.ram[0x000], 0xBB);
}

#[test]
fn add_sets_carry_flag() {
    let mut chip = Chip8::new();
    chip.var_reg[1] = 0xFF;
    chip.var_reg[2] = 0x02;
    run(&mut chip, &[0x81, 0x24]).unwrap();
    assert_eq!(chip.var_reg[1], 0x01);
    assert_eq!(chip.var_reg[0xF], 1);
    chip.var_reg[1] = 0x10;
    run(&mut chip, &[0x81, 0x24]).unwrap();
    assert_eq!(chip.var_reg[1], 0x12);
    assert_eq!(chip.var_reg[0xF], 0);
}

#[test]
fn sub_sets_no_borrow_flag() {
    let mut chip = Chip8::new();
    chip.var_reg[1] = 5;
    chip.var_reg[2] = 7;
    run(&mut chip, &[0x81, 0x25]).unwrap();
    assert_eq!(chip.var_reg[1], 0xFE);
    assert_eq!(chip.var_reg[0xF], 0);
    chip.var_reg[1] = 7;
    chip.var_reg[2] = 7;
    run(&mut chip, &[0x81, 0x25]).unwrap();
    assert_eq!(chip.var_reg[1], 0);
    assert_eq!(chip.var_reg[0xF], 1);
}

#[test]
fn reverse_sub_sets_no_borrow_flag() {
    let mut chip = Chip8::new();
    chip.var_reg[1] = 5;
    chip.var_reg[2] = 7;
    run(&mut chip, &[0x81, 0x27]).unwrap();
    assert_eq!(chip.var_reg[1], 2);
    assert_eq!(chip.var_reg[0xF], 1);
    chip.var_reg[1] = 9;
    run(&mut chip, &[0x81, 0x27]).unwrap();
    assert_eq!(chip.var_reg[1], 0xFE);
    assert_eq!(chip.var_reg[0xF], 0);
}

#[test]
fn shift_left_takes_high_bit() {
    let mut chip = Chip8::new();
    chip.var_reg[2] = 0x81;
    run(&mut chip, &[0x81, 0x2E]).unwrap();
    assert_eq!(chip.var_reg[1], 0x02);
    assert_eq!(chip.var_reg[0xF], 1);
    chip.var_reg[2] = 0x41;
    run(&mut chip, &[0x81, 0x2E]).unwrap();
    assert_eq!(chip.var_reg[1], 0x82);
    assert_eq!(chip.var_reg[0xF], 0);
}

#[test]
fn logic_and_assign_instructions() {
    let mut chip = Chip8::new();
    chip.var_reg[1] = 0b1100;
    chip.var_reg[2] = 0b1010;
    run(&mut chip, &[0x81, 0x21]).unwrap();
    assert_eq!(chip.var_reg[1], 0b1110);
    chip.var_reg[1] = 0b1100;
    run(&mut chip, &[0x81, 0x22]).unwrap();
    assert_eq!(chip.var_reg[1], 0b1000);
    chip.var_reg[1] = 0b1100;
    run(&mut chip, &[0x81, 0x23]).unwrap();
    assert_eq!(chip.var_reg[1], 0b0110);
    run(&mut chip, &[0x81, 0x20]).unwrap();
    assert_eq!(chip.var_reg[1], 0b1010);
}

#[test]
fn timers_and_font_and_offset_jump() {
    let mut chip = Chip8::new();
    chip.var_reg[1] = 9;
    run(&mut chip, &[0xF1, 0x15]).unwrap();
    run(&mut chip, &[0xF1, 0x18]).unwrap();
    assert_eq!(chip.delay_timer, 9);
    assert_eq!(chip.sound_timer, 9);
    chip.decrement_timers(4);
    run(&mut chip, &[0xF2, 0x07]).unwrap();
    assert_eq!(chip.var_reg[2], 5);
    chip.decrement_timers(200);
    assert_eq!(chip.delay_timer, 0);
    assert_eq!(chip.sound_timer, 0);
    chip.var_reg[4] = 0xA;
    run(&mut chip, &[0xF4, 0x29]).unwrap();
    assert_eq!(chip.idx_reg, 0x50 + 5 * 0xA);
    chip.var_reg[0] = 4;
    run(&mut chip, &[0xB3, 0x00]).unwrap();
    assert_eq!(chip.pc, 0x304);
}

#[test]
fn return_with_empty_stack_fails() {
    let mut chip = Chip8::new();
    assert_eq!(run(&mut chip, &[0x00, 0xEE]), Err(Chip8Error::StackUnderflow));
    assert_eq!(chip.pc, 0x202);
}

#[test]
fn unsupported_words_fail() {
    for word in [0x0123u16, 0x800F, 0xC012, 0xE000, 0xF0FF] {
        let mut chip = Chip8::new();
        let bytes = [(word >> 8) as u8, (word & 0xFF) as u8];
        assert_eq!(run(&mut chip, &bytes), Err(Chip8Error::UnsupportedOpcode(word)));
        assert_eq!(chip.pc, 0x202);
    }
}

#[test]
fn load_past_end_of_memory_fails() {
    let mut chip = Chip8::new();
    assert_eq!(chip.load_memory(0xFFF, &[1, 2]), Err(Chip8Error::ImageTooLarge));
    assert_eq!(chip.ram[0xFFF], 0);
    assert_eq!(chip.load_memory(0xFFE, &[1, 2]), Ok(()));
    assert_eq!(chip.ram[0xFFF], 2);
    assert_eq!(chip.load_memory(0x1000, &[]), Ok(()));
    assert_eq!(chip.load_memory(0x1001, &[]), Err(Chip8Error::ImageTooLarge));
}

#[test]
fn rom_is_padded_and_loaded_at_program_start() {
    let rom = ROM::from_bytes(&[0x12, 0x34, 0x56]).unwrap();
    assert_eq!(&rom.data[0..3], &[0x12, 0x34, 0x56]);
    assert!(rom.data[3..].iter().all(|b| *b == 0));
    let mut chip = Chip8::new();
    chip.load_rom(rom);
    assert_eq!(&chip.ram[0x200..0x204], &[0x12, 0x34, 0x56, 0x00]);
    assert_eq!(chip.ram[0x50], 0xF0);
}

#[test]
fn rom_too_large_fails() {
    let big = vec![0u8; 3585];
    assert!(matches!(ROM::from_bytes(&big), Err(Chip8Error::ImageTooLarge)));
    let full = vec![7u8; 3584];
    assert_eq!(ROM::from_bytes(&full).unwrap().data[3583], 7);
}

#[test]
fn opcode_fields_and_hex_text() {
    let op = Opcode::new(0xD12F);
    assert_eq!((op.w, op.x, op.y, op.n, op.nn, op.nnn), (0xD, 0x1, 0x2, 0xF, 0x2F, 0x12F));
    assert_eq!(op.instruction_to_str(), "0xd12f");
    assert_eq!(Opcode::new(0x00E0).instruction_to_str(), "0x00e0");
}

#[test]
fn decoding_selects_variant() {
    assert_eq!(
        Instruction::from_opcode(&Opcode::new(0x8AB4)),
        Some(Instruction::Add { x: 0xA, y: 0xB })
    );
    assert_eq!(
        Instruction::from_opcode(&Opcode::new(0xD123)),
        Some(Instruction::Draw { x: 1, y: 2, n: 3 })
    );
    assert_eq!(Instruction::from_opcode(&Opcode::new(0x00EE)), Some(Instruction::Return));
    assert_eq!(Instruction::from_opcode(&Opcode::new(0x8AB8)), None);
}

#[test]
fn fetch_wraps_at_end_of_memory() {
    let mut chip = Chip8::new();
    chip.pc = 0x0FFF;
    chip.ram[0xFFF] = 0x61;
    chip.ram[0x000] = 0x05;
    chip.cycle().unwrap();
    assert_eq!(chip.var_reg[1], 5);
    assert_eq!(chip.pc, 0x1001);
}

#[test]
fn default_machine_is_new_machine() {
    let chip = Chip8::default();
    assert_eq!(chip.pc, 0x200);
    assert_eq!(chip.idx_reg, 0);
    assert_eq!(chip.ram[0x9F], 0x80);
    assert_eq!(chip.input_key, None);
}
