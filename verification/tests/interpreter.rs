use chip8_core::{Emu, Fault, Progress, FONT_BASE_ADDR, START_ADDR};

fn machine(program: &[u8]) -> Emu {
    let mut emu = Emu::new();
    emu.load_rom(&program.to_vec());
    emu
}

fn run(emu: &mut Emu, steps: usize) {
    for _ in 0..steps {
        assert_eq!(emu.fetch_with(0), Ok(Progress::Advanced));
    }
}

#[test]
fn new_machine_is_reset() {
    let emu = Emu::new();
    assert_eq!(emu.pc(), 0x200);
    assert_eq!(emu.pc(), START_ADDR);
    assert_eq!(emu.index(), 0);
    assert_eq!(emu.registers(), &[0u8; 16]);
    assert_eq!(emu.stack_depth(), 0);
    assert_eq!(emu.delay_timer(), 0);
    assert_eq!(emu.sound_timer(), 0);
    assert!(emu.screen().iter().all(|p| !*p));
    assert!(emu.keys().iter().all(|k| !*k));
    assert_eq!(emu.screen().len(), 64 * 32);
}

const FONT: [u8; 80] = [
    0xF0, 0x90, 0x90, 0x90, 0xF0, 0x20, 0x60, 0x20, 0x20, 0x70, 0xF0, 0x10, 0xF0, 0x80, 0xF0,
    0xF0, 0x10, 0xF0, 0x10, 0xF0, 0x90, 0x90, 0xF0, 0x10, 0x10, 0xF0, 0x80, 0xF0, 0x10, 0xF0,
    0xF0, 0x80, 0xF0, 0x90, 0xF0, 0xF0, 0x10, 0x20, 0x40, 0x40, 0xF0, 0x90, 0xF0, 0x90, 0xF0,
    0xF0, 0x90, 0xF0, 0x10, 0xF0, 0xF0, 0x90, 0xF0, 0x90, 0x90, 0xE0, 0x90, 0xE0, 0x90, 0xE0,
    0xF0, 0x80, 0x80, 0x80, 0xF0, 0xE0, 0x90, 0x90, 0x90, 0xE0, 0xF0, 0x80, 0xF0, 0x80, 0xF0,
    0xF0, 0x80, 0xF0, 0x80, 0x80,
];

#[test]
fn new_machine_holds_the_font() {
    let emu = Emu::new();
    let ram = emu.memory();
    assert_eq!(FONT_BASE_ADDR, 0x050);
    assert_eq!(&ram[0x050..0x055], &[0xF0, 0x90, 0x90, 0x90, 0xF0]);
    assert_eq!(&ram[0x055..0x05A], &[0x20, 0x60, 0x20, 0x20, 0x70]);
    assert_eq!(&ram[0x09B..0x0A0], &[0xF0, 0x80, 0xF0, 0x80, 0x80]);
    assert_eq!(&ram[FONT_BASE_ADDR..FONT_BASE_ADDR + 80], &FONT);
    assert!(ram[..0x050].iter().all(|b| *b == 0));
    assert!(ram[0x0A0..].iter().all(|b| *b == 0));
}

#[test]
fn the_font_lies_below_the_load_address() {
    assert!(FONT_BASE_ADDR + 80 <= START_ADDR as usize);
}

#[test]
fn load_rom_never_touches_the_font() {
    for len in [0usize, 1, 2816, 2817, 3584, 3585, 5000, 70000] {
        let mut emu = Emu::new();
        emu.load_rom(&vec![0xFF; len]);
        assert_eq!(&emu.memory()[FONT_BASE_ADDR..FONT_BASE_ADDR + 80], &FONT);
        assert_eq!(&emu.memory()[..0x200], &Emu::new().memory()[..0x200]);
        let copied = len.min(4096 - 0x200);
        assert!(emu.memory()[0x200..0x200 + copied].iter().all(|b| *b == 0xFF));
        assert!(emu.memory()[0x200 + copied..].iter().all(|b| *b == 0));
    }
}

#[test]
fn glyphs_are_intact_after_a_full_load() {
    // a program that fills memory, then asks for glyph F and draws it
    let mut image = vec![0xFF; 3584];
    image[..6].copy_from_slice(&[0x60, 0x0F, 0xF0, 0x29, 0xD1, 0x15]);
    let mut emu = Emu::new();
    emu.load_rom(&image);
    run(&mut emu, 3);
    assert_eq!(emu.index() as usize, FONT_BASE_ADDR + 15 * 5);
    // glyph F: F0 80 F0 80 80
    let rows: Vec<Vec<bool>> =
        (0..5).map(|y| (0..8).map(|x| emu.screen()[y * 64 + x]).collect()).collect();
    let bits = |b: u8| (0..8).map(|k| (b >> (7 - k)) & 1 == 1).collect::<Vec<bool>>();
    assert_eq!(rows, vec![bits(0xF0), bits(0x80), bits(0xF0), bits(0x80), bits(0x80)]);
}

#[test]
fn load_immediate_then_add_immediate() {
    let mut emu = machine(&[0x6A, 0x05, 0x7A, 0x03]);
    assert_eq!(emu.fetch(), Ok(Progress::Advanced));
    assert_eq!(emu.fetch(), Ok(Progress::Advanced));
    assert_eq!(emu.registers()[10], 8);
    assert_eq!(emu.pc(), START_ADDR + 4);
}

#[test]
fn glyph_of_digit_zero_is_the_font_base() {
    let mut emu = machine(&[0x60, 0x00, 0xF0, 0x29]);
    run(&mut emu, 2);
    assert_eq!(emu.index() as usize, FONT_BASE_ADDR);
}

#[test]
fn glyph_uses_the_low_nibble() {
    let mut emu = machine(&[0x60, 0x0A, 0xF0, 0x29, 0x61, 0x37, 0xF1, 0x29]);
    run(&mut emu, 2);
    assert_eq!(emu.index(), 0x050 + 10 * 5);
    run(&mut emu, 2);
    assert_eq!(emu.index(), 0x050 + 7 * 5);
}

#[test]
fn load_rom_copies_the_image() {
    let emu = machine(&[1, 2, 3]);
    assert_eq!(&emu.memory()[0x200..0x204], &[1, 2, 3, 0]);
    assert_eq!(emu.memory()[0x1FF], 0);
}

#[test]
fn load_rom_drops_what_does_not_fit() {
    let image: Vec<u8> = (0..5000usize).map(|i| (i % 251) as u8 + 1).collect();
    let mut emu = Emu::new();
    emu.load_rom(&image);
    for a in 0x200..4096usize {
        assert_eq!(emu.memory()[a], image[a - 0x200]);
    }
    assert_eq!(&emu.memory()[..0x200], &Emu::new().memory()[..0x200]);
    assert_eq!(&emu.memory()[FONT_BASE_ADDR..FONT_BASE_ADDR + 80], &FONT);
}

#[test]
fn load_rom_of_nothing_changes_nothing() {
    let mut emu = Emu::new();
    emu.load_rom(&Vec::new());
    assert_eq!(emu.memory(), Emu::new().memory());
}

#[test]
fn add_immediate_wraps_without_flag() {
    let mut emu = machine(&[0x6F, 0x07, 0x60, 0xFF, 0x70, 0x02]);
    run(&mut emu, 3);
    assert_eq!(emu.registers()[0], 1);
    assert_eq!(emu.registers()[15], 7);
}

#[test]
fn copy_and_bitwise_operations() {
    let mut emu = machine(&[
        0x60, 0xCC, 0x61, 0xAA, 0x82, 0x00, 0x83, 0x00, 0x83, 0x11, 0x84, 0x00, 0x84, 0x12,
        0x85, 0x00, 0x85, 0x13,
    ]);
    run(&mut emu, 9);
    let v = emu.registers();
    assert_eq!(v[2], 0xCC);
    assert_eq!(v[3], 0xCC | 0xAA);
    assert_eq!(v[4], 0xCC & 0xAA);
    assert_eq!(v[5], 0xCC ^ 0xAA);
    assert_eq!(v[15], 0);
}

fn alu(op: u8, a: u8, b: u8) -> (u8, u8) {
    let mut emu = machine(&[0x60, a, 0x61, b, 0x80, 0x10 | op]);
    run(&mut emu, 3);
    (emu.registers()[0], emu.registers()[15])
}

#[test]
fn add_with_carry() {
    assert_eq!(alu(4, 200, 100), (44, 1));
    assert_eq!(alu(4, 200, 55), (255, 0));
    assert_eq!(alu(4, 255, 1), (0, 1));
    assert_eq!(alu(4, 0, 0), (0, 0));
}

#[test]
fn add_with_carry_for_all_bytes() {
    for a in 0..=255u16 {
        for b in [0u16, 1, 127, 128, 255] {
            let (sum, carry) = alu(4, a as u8, b as u8);
            assert_eq!(sum as u16, (a + b) % 256);
            assert_eq!(carry == 1, a + b > 255);
            assert!(carry <= 1);
        }
    }
}

#[test]
fn subtract_with_borrow() {
    assert_eq!(alu(5, 10, 3), (7, 1));
    assert_eq!(alu(5, 3, 10), (249, 0));
    assert_eq!(alu(5, 5, 5), (0, 1));
}

#[test]
fn subtract_with_borrow_for_all_bytes() {
    for a in 0..=255i32 {
        for b in [0i32, 1, 127, 128, 255] {
            let (diff, flag) = alu(5, a as u8, b as u8);
            assert_eq!(diff as i32, (a - b).rem_euclid(256));
            assert_eq!(flag == 1, a >= b);
            assert!(flag <= 1);
        }
    }
}

#[test]
fn reverse_subtract() {
    assert_eq!(alu(7, 3, 10), (7, 1));
    assert_eq!(alu(7, 10, 3), (249, 0));
    assert_eq!(alu(7, 4, 4), (0, 1));
}

#[test]
fn shifts_capture_the_bit_shifted_out() {
    assert_eq!(alu(6, 0b0000_0101, 0), (0b0000_0010, 1));
    assert_eq!(alu(6, 0b0000_0100, 0xFF), (0b0000_0010, 0));
    assert_eq!(alu(0xE, 0b1000_0001, 0), (0b0000_0010, 1));
    assert_eq!(alu(0xE, 0b0100_0001, 0xFF), (0b1000_0010, 0));
}

#[test]
fn subtract_reads_the_flag_register_before_writing_it() {
    // V0 = 10, VF = 3, V0 -= VF
    let mut emu = machine(&[0x60, 0x0A, 0x6F, 0x03, 0x80, 0xF5]);
    run(&mut emu, 3);
    assert_eq!(emu.registers()[0], 7);
    assert_eq!(emu.registers()[15], 1);
}

#[test]
fn flag_register_as_target() {
    // VF = 200, V1 = 100, VF += V1: the carry is what remains
    let mut emu = machine(&[0x6F, 200, 0x61, 100, 0x8F, 0x14]);
    run(&mut emu, 3);
    assert_eq!(emu.registers()[15], 1);
    // VF = 10, V1 = 3, VF -= V1: the difference is what remains
    let mut emu = machine(&[0x6F, 10, 0x61, 3, 0x8F, 0x15]);
    run(&mut emu, 3);
    assert_eq!(emu.registers()[15], 7);
}

#[test]
fn jump_sets_the_program_counter() {
    let mut emu = machine(&[0x1A, 0xBC]);
    run(&mut emu, 1);
    assert_eq!(emu.pc(), 0xABC);
}

#[test]
fn jump_with_offset_wraps_at_4096() {
    let mut emu = machine(&[0x60, 0x10, 0xB3, 0x00]);
    run(&mut emu, 2);
    assert_eq!(emu.pc(), 0x310);
    let mut emu = machine(&[0x60, 0xFF, 0xBF, 0xFF]);
    run(&mut emu, 2);
    assert_eq!(emu.pc(), (0xFF + 0xFFF) % 4096);
}

#[test]
fn call_then_return() {
    // 0x200: call 0x206; 0x206: return
    let mut emu = machine(&[0x22, 0x06, 0x00, 0x00, 0x00, 0x00, 0x00, 0xEE]);
    run(&mut emu, 1);
    assert_eq!(emu.pc(), 0x206);
    assert_eq!(emu.stack_depth(), 1);
    run(&mut emu, 1);
    assert_eq!(emu.pc(), 0x202);
    assert_eq!(emu.stack_depth(), 0);
}

#[test]
fn nested_calls_return_in_reverse_order() {
    // 0x200: call 0x204; 0x202: nop; 0x204: call 0x208; 0x206: ret; 0x208: ret
    let mut emu = machine(&[0x22, 0x04, 0x00, 0x00, 0x22, 0x08, 0x00, 0xEE, 0x00, 0xEE]);
    run(&mut emu, 2);
    assert_eq!(emu.pc(), 0x208);
    assert_eq!(emu.stack_depth(), 2);
    run(&mut emu, 1);
    assert_eq!(emu.pc(), 0x206);
    run(&mut emu, 1);
    assert_eq!(emu.pc(), 0x202);
    assert_eq!(emu.stack_depth(), 0);
}

#[test]
fn skips() {
    // 3xkk taken / not taken
    let mut emu = machine(&[0x60, 0x05, 0x30, 0x05]);
    run(&mut emu, 2);
    assert_eq!(emu.pc(), 0x206);
    let mut emu = machine(&[0x60, 0x05, 0x30, 0x06]);
    run(&mut emu, 2);
    assert_eq!(emu.pc(), 0x204);
    // 4xkk
    let mut emu = machine(&[0x60, 0x05, 0x40, 0x06]);
    run(&mut emu, 2);
    assert_eq!(emu.pc(), 0x206);
    let mut emu = machine(&[0x60, 0x05, 0x40, 0x05]);
    run(&mut emu, 2);
    assert_eq!(emu.pc(), 0x204);
    // 5xy0
    let mut emu = machine(&[0x60, 0x05, 0x61, 0x05, 0x50, 0x10]);
    run(&mut emu, 3);
    assert_eq!(emu.pc(), 0x208);
    let mut emu = machine(&[0x60, 0x05, 0x61, 0x06, 0x50, 0x10]);
    run(&mut emu, 3);
    assert_eq!(emu.pc(), 0x206);
    // 9xy0
    let mut emu = machine(&[0x60, 0x05, 0x61, 0x06, 0x90, 0x10]);
    run(&mut emu, 3);
    assert_eq!(emu.pc(), 0x208);
    let mut emu = machine(&[0x60, 0x05, 0x61, 0x05, 0x90, 0x10]);
    run(&mut emu, 3);
    assert_eq!(emu.pc(), 0x206);
}

#[test]
fn key_skips_follow_the_keypad() {
    let mut emu = machine(&[0x60, 0x07, 0xE0, 0x9E]);
    emu.set_key(7, true);
    run(&mut emu, 2);
    assert_eq!(emu.pc(), 0x206);
    let mut emu = machine(&[0x60, 0x07, 0xE0, 0x9E]);
    run(&mut emu, 2);
    assert_eq!(emu.pc(), 0x204);
    let mut emu = machine(&[0x60, 0x07, 0xE0, 0xA1]);
    run(&mut emu, 2);
    assert_eq!(emu.pc(), 0x206);
    let mut emu = machine(&[0x60, 0x07, 0xE0, 0xA1]);
    emu.set_key(7, true);
    run(&mut emu, 2);
    assert_eq!(emu.pc(), 0x204);
}

#[test]
fn set_key_and_reset_keys() {
    let mut emu = Emu::new();
    emu.set_key(0, true);
    emu.set_key(15, true);
    emu.set_key(16, true);
    emu.set_key(255, true);
    let mut want = [false; 16];
    want[0] = true;
    want[15] = true;
    assert_eq!(emu.keys(), &want);
    emu.set_key(15, false);
    want[15] = false;
    assert_eq!(emu.keys(), &want);
    emu.reset_keys();
    assert_eq!(emu.keys(), &[false; 16]);
}

#[test]
fn index_register_load_and_add() {
    let mut emu = machine(&[0xA1, 0x23, 0x60, 0x10, 0xF0, 0x1E]);
    run(&mut emu, 3);
    assert_eq!(emu.index(), 0x133);
}

#[test]
fn index_register_add_wraps_at_16_bits() {
    // I = 0xFFF, then 0xFF added 241 times: 0xFFF + 241 * 0xFF = 65550, which wraps to 14
    let mut program = vec![0xAF, 0xFF, 0x60, 0xFF];
    for _ in 0..241 {
        program.extend_from_slice(&[0xF0, 0x1E]);
    }
    let mut emu = machine(&program);
    run(&mut emu, 2 + 240);
    assert_eq!(emu.index() as u32, 0xFFF + 240 * 0xFF);
    run(&mut emu, 1);
    assert_eq!(emu.index() as u32, (0xFFF + 241 * 0xFF) % 65536);
    assert_eq!(emu.index(), 14);
}

#[test]
fn bcd_stores_three_digits() {
    let mut emu = machine(&[0x60, 234, 0xA3, 0x00, 0xF0, 0x33]);
    run(&mut emu, 3);
    assert_eq!(&emu.memory()[0x300..0x303], &[2, 3, 4]);
    let mut emu = machine(&[0x60, 7, 0xA3, 0x00, 0xF0, 0x33]);
    run(&mut emu, 3);
    assert_eq!(&emu.memory()[0x300..0x303], &[0, 0, 7]);
    let mut emu = machine(&[0x60, 255, 0xA3, 0x00, 0xF0, 0x33]);
    run(&mut emu, 3);
    assert_eq!(&emu.memory()[0x300..0x304], &[2, 5, 5, 0]);
}

#[test]
fn store_and_load_registers() {
    let mut emu = machine(&[
        0x60, 0x11, 0x61, 0x22, 0x62, 0x33, 0x63, 0x44, 0xA3, 0x00, 0xF2, 0x55, 0x60, 0x00,
        0x61, 0x00, 0x62, 0x00, 0x63, 0x00, 0xF1, 0x65,
    ]);
    run(&mut emu, 6);
    assert_eq!(&emu.memory()[0x2FF..0x304], &[0, 0x11, 0x22, 0x33, 0]);
    assert_eq!(emu.index(), 0x300);
    run(&mut emu, 5);
    assert_eq!(&emu.registers()[..5], &[0x11, 0x22, 0, 0, 0]);
}

#[test]
fn timers_are_set_read_and_ticked() {
    let mut emu = machine(&[0x60, 0x03, 0xF0, 0x15, 0x61, 0x02, 0xF1, 0x18, 0xF2, 0x07]);
    run(&mut emu, 4);
    assert_eq!(emu.delay_timer(), 3);
    assert_eq!(emu.sound_timer(), 2);
    emu.update_timers();
    assert_eq!((emu.delay_timer(), emu.sound_timer()), (2, 1));
    run(&mut emu, 1);
    assert_eq!(emu.registers()[2], 2);
    emu.update_timers();
    assert_eq!((emu.delay_timer(), emu.sound_timer()), (1, 0));
    emu.update_timers();
    assert_eq!((emu.delay_timer(), emu.sound_timer()), (0, 0));
    emu.update_timers();
    assert_eq!((emu.delay_timer(), emu.sound_timer()), (0, 0));
}

#[test]
fn timer_after_k_ticks() {
    for v in [0u8, 1, 5, 200, 255] {
        let mut emu = machine(&[0x60, v, 0xF0, 0x15, 0xF0, 0x18]);
        run(&mut emu, 3);
        let mut last = v;
        for k in 1..=300u32 {
            emu.update_timers();
            let want = (v as u32).saturating_sub(k) as u8;
            assert_eq!(emu.delay_timer(), want);
            assert_eq!(emu.sound_timer(), want);
            assert!(emu.delay_timer() <= last);
            last = emu.delay_timer();
        }
    }
}

#[test]
fn update_timers_touches_nothing_else() {
    let mut emu = machine(&[0x60, 0x03, 0xF0, 0x15]);
    run(&mut emu, 2);
    let (pc, v, ram) = (emu.pc(), *emu.registers(), *emu.memory());
    emu.update_timers();
    assert_eq!(emu.pc(), pc);
    assert_eq!(emu.registers(), &v);
    assert_eq!(emu.memory(), &ram);
}

#[test]
fn random_is_masked() {
    let mut emu = machine(&[0xC0, 0x0F]);
    assert_eq!(emu.fetch_with(0xAB), Ok(Progress::Advanced));
    assert_eq!(emu.registers()[0], 0x0B);
    assert_eq!(emu.pc(), 0x202);
    let mut emu = machine(&[0xC3, 0xF0]);
    assert_eq!(emu.fetch_with(0xFF), Ok(Progress::Advanced));
    assert_eq!(emu.registers()[3], 0xF0);
}

#[test]
fn random_from_the_generator_is_masked_and_varies() {
    let mut seen = [false; 256];
    for _ in 0..400 {
        let mut emu = machine(&[0xC0, 0x3C]);
        assert_eq!(emu.fetch(), Ok(Progress::Advanced));
        let v = emu.registers()[0];
        assert_eq!(v & !0x3C, 0);
        seen[v as usize] = true;
    }
    assert!(seen.iter().filter(|s| **s).count() > 1);
    let mut emu = machine(&[0xC0, 0x00]);
    assert_eq!(emu.fetch(), Ok(Progress::Advanced));
    assert_eq!(emu.registers()[0], 0);
}

#[test]
fn the_random_byte_matters_only_to_the_random_instruction() {
    let program = [0x60, 0x05, 0x70, 0x03, 0xA1, 0x23];
    let mut a = machine(&program);
    let mut b = machine(&program);
    for _ in 0..3 {
        assert_eq!(a.fetch_with(0), b.fetch_with(0xFF));
    }
    assert_eq!(a.registers(), b.registers());
    assert_eq!(a.index(), b.index());
    assert_eq!(a.pc(), b.pc());
}

#[test]
fn nop_only_advances() {
    let mut emu = machine(&[0x00, 0x00]);
    run(&mut emu, 1);
    assert_eq!(emu.pc(), 0x202);
    assert_eq!(emu.registers(), &[0u8; 16]);
}

#[test]
fn unknown_opcodes_are_faults() {
    for op in [0x0001u16, 0x00E1, 0x0123, 0x8008, 0x800F, 0xE000, 0xE19F, 0xF000, 0xF1FF, 0xF056] {
        let mut emu = machine(&[(op >> 8) as u8, op as u8]);
        emu.set_key(1, true);
        assert_eq!(emu.fetch(), Err(Fault::UnknownOpcode(op)));
        assert_eq!(emu.pc(), 0x200);
        assert_eq!(emu.registers(), &[0u8; 16]);
        assert_eq!(emu.fetch_with(9), Err(Fault::UnknownOpcode(op)));
    }
}

#[test]
fn fetch_beyond_memory_is_a_fault() {
    let mut emu = machine(&[0x1F, 0xFF]);
    run(&mut emu, 1);
    assert_eq!(emu.pc(), 0xFFF);
    assert_eq!(emu.fetch(), Err(Fault::FetchOutOfBounds));
    assert_eq!(emu.pc(), 0xFFF);
}

#[test]
fn running_off_the_end_of_memory_is_a_fault() {
    let mut emu = machine(&[0x1F, 0xFE]);
    run(&mut emu, 2);
    assert_eq!(emu.pc(), 0x1000);
    assert_eq!(emu.fetch_with(0), Err(Fault::FetchOutOfBounds));
    assert_eq!(emu.pc(), 0x1000);
}

#[test]
fn return_on_an_empty_stack_is_a_fault() {
    let mut emu = machine(&[0x00, 0xEE]);
    assert_eq!(emu.fetch(), Err(Fault::StackUnderflow));
    assert_eq!(emu.pc(), 0x200);
    assert_eq!(emu.stack_depth(), 0);
}

#[test]
fn the_seventeenth_nested_call_is_a_fault() {
    // a subroutine that calls itself
    let mut emu = machine(&[0x22, 0x00]);
    run(&mut emu, 16);
    assert_eq!(emu.stack_depth(), 16);
    assert_eq!(emu.fetch(), Err(Fault::StackOverflow));
    assert_eq!(emu.stack_depth(), 16);
    assert_eq!(emu.pc(), 0x200);
}

#[test]
fn key_test_on_a_missing_key_is_a_fault() {
    let mut emu = machine(&[0x60, 0x10, 0xE0, 0x9E]);
    run(&mut emu, 1);
    assert_eq!(emu.fetch(), Err(Fault::KeyOutOfRange));
    assert_eq!(emu.pc(), 0x202);
    let mut emu = machine(&[0x60, 0xFF, 0xE0, 0xA1]);
    run(&mut emu, 1);
    assert_eq!(emu.fetch(), Err(Fault::KeyOutOfRange));
    assert_eq!(emu.pc(), 0x202);
}

#[test]
fn memory_access_beyond_the_end_is_a_fault_and_writes_nothing() {
    // store V0..=V2 at 0xFFE: the third byte would fall outside
    let mut emu = machine(&[0x60, 0x11, 0x61, 0x22, 0x62, 0x33, 0xAF, 0xFE, 0xF2, 0x55]);
    run(&mut emu, 4);
    let before = *emu.memory();
    assert_eq!(emu.fetch(), Err(Fault::MemoryOutOfBounds));
    assert_eq!(emu.memory(), &before);
    assert_eq!(emu.pc(), 0x208);
    // the same store with two registers fits
    let mut emu = machine(&[0x60, 0x11, 0x61, 0x22, 0x62, 0x33, 0xAF, 0xFE, 0xF1, 0x55]);
    run(&mut emu, 5);
    assert_eq!(&emu.memory()[0xFFE..], &[0x11, 0x22]);
    // load
    let mut emu = machine(&[0x60, 0x11, 0xAF, 0xFF, 0xF1, 0x65]);
    run(&mut emu, 2);
    assert_eq!(emu.fetch(), Err(Fault::MemoryOutOfBounds));
    assert_eq!(emu.registers()[0], 0x11);
    // bcd
    let mut emu = machine(&[0x60, 123, 0xAF, 0xFE, 0xF0, 0x33]);
    run(&mut emu, 2);
    let before = *emu.memory();
    assert_eq!(emu.fetch(), Err(Fault::MemoryOutOfBounds));
    assert_eq!(emu.memory(), &before);
    let mut emu = machine(&[0x60, 123, 0xAF, 0xFD, 0xF0, 0x33]);
    run(&mut emu, 3);
    assert_eq!(&emu.memory()[0xFFD..], &[1, 2, 3]);
}

#[test]
fn a_fault_leaves_the_machine_as_it_was() {
    let mut emu = machine(&[0x6F, 0x01, 0xAF, 0xFF, 0xD0, 0x02]);
    run(&mut emu, 2);
    let screen = *emu.screen();
    let v = *emu.registers();
    assert_eq!(emu.fetch(), Err(Fault::MemoryOutOfBounds));
    assert_eq!(emu.screen(), &screen);
    assert_eq!(emu.registers(), &v);
    assert_eq!(emu.registers()[15], 1);
    assert_eq!(emu.pc(), 0x204);
    assert_eq!(emu.fetch(), Err(Fault::MemoryOutOfBounds));
}
