use chip8::cpu::CPU;
use chip8::decode::{decode, kk, nibbles, nnn, Instruction};
use chip8::model::{CpuError, Effect};

const NO_KEYS: [bool; 16] = [false; 16];

fn program(words: &[u16]) -> Vec<u8> {
    let mut bytes = Vec::new();
    for w in words {
        bytes.push((w >> 8) as u8);
        bytes.push((w & 0xFF) as u8);
    }
    bytes
}

fn machine(words: &[u16]) -> CPU {
    CPU::new(&program(words)).expect("program fits")
}

fn run(cpu: &mut CPU, steps: usize) {
    for _ in 0..steps {
        cpu.step(&NO_KEYS).expect("step succeeds");
    }
}

#[test]
fn load_then_add_immediate() {
    let mut cpu = machine(&[0x6005, 0x7003]);
    run(&mut cpu, 2);
    assert_eq!(cpu.register(0), 0x08);
    assert_eq!(cpu.program_counter(), 0x204);
}

#[test]
fn delay_timer_counts_down_to_zero() {
    let mut cpu = machine(&[0x6003, 0xF015]);
    run(&mut cpu, 2);
    assert_eq!(cpu.delay_timer(), 3);
    cpu.tick_timers();
    cpu.tick_timers();
    cpu.tick_timers();
    assert_eq!(cpu.delay_timer(), 0);
    cpu.tick_timers();
    assert_eq!(cpu.delay_timer(), 0);
}

#[test]
fn sound_timer_and_delay_read_back() {
    let mut cpu = machine(&[0x6007, 0xF018, 0xF015, 0xF107]);
    run(&mut cpu, 4);
    assert_eq!(cpu.sound_timer(), 7);
    assert_eq!(cpu.register(1), 7);
    cpu.tick_timers();
    assert_eq!(cpu.sound_timer(), 6);
    assert_eq!(cpu.delay_timer(), 6);
}

#[test]
fn add_registers_with_carry() {
    let mut cpu = machine(&[0x60FF, 0x6102, 0x8014]);
    run(&mut cpu, 3);
    assert_eq!(cpu.register(0), 0x01);
    assert_eq!(cpu.register(0xF), 1);
}

#[test]
fn add_registers_without_carry() {
    let mut cpu = machine(&[0x6FFF, 0x6010, 0x6120, 0x8014]);
    run(&mut cpu, 4);
    assert_eq!(cpu.register(0), 0x30);
    assert_eq!(cpu.register(0xF), 0);
}

#[test]
fn add_registers_exactly_255_has_no_carry() {
    let mut cpu = machine(&[0x60F0, 0x610F, 0x8014]);
    run(&mut cpu, 3);
    assert_eq!(cpu.register(0), 0xFF);
    assert_eq!(cpu.register(0xF), 0);
}

#[test]
fn add_immediate_wraps_and_keeps_flag() {
    let mut cpu = machine(&[0x6F05, 0x60FF, 0x7002]);
    run(&mut cpu, 3);
    assert_eq!(cpu.register(0), 0x01);
    assert_eq!(cpu.register(0xF), 0x05);
}

#[test]
fn sub_without_borrow() {
    let mut cpu = machine(&[0x6005, 0x6103, 0x8015]);
    run(&mut cpu, 3);
    assert_eq!(cpu.register(0), 2);
    assert_eq!(cpu.register(0xF), 1);
}

#[test]
fn sub_equal_operands_sets_flag() {
    let mut cpu = machine(&[0x6009, 0x6109, 0x8015]);
    run(&mut cpu, 3);
    assert_eq!(cpu.register(0), 0);
    assert_eq!(cpu.register(0xF), 1);
}

#[test]
fn sub_with_borrow() {
    let mut cpu = machine(&[0x6003, 0x6105, 0x8015]);
    run(&mut cpu, 3);
    assert_eq!(cpu.register(0), 0xFE);
    assert_eq!(cpu.register(0xF), 0);
}

#[test]
fn subn_reverses_operands() {
    let mut cpu = machine(&[0x6003, 0x6105, 0x8017]);
    run(&mut cpu, 3);
    assert_eq!(cpu.register(0), 2);
    assert_eq!(cpu.register(0xF), 1);
    let mut cpu = machine(&[0x6005, 0x6103, 0x8017]);
    run(&mut cpu, 3);
    assert_eq!(cpu.register(0), 0xFE);
    assert_eq!(cpu.register(0xF), 0);
}

#[test]
fn shift_right_moves_low_bit_to_flag() {
    let mut cpu = machine(&[0x6005, 0x8006]);
    run(&mut cpu, 2);
    assert_eq!(cpu.register(0), 2);
    assert_eq!(cpu.register(0xF), 1);
    let mut cpu = machine(&[0x6004, 0x8006]);
    run(&mut cpu, 2);
    assert_eq!(cpu.register(0), 2);
    assert_eq!(cpu.register(0xF), 0);
}

#[test]
fn shift_left_moves_high_bit_to_flag() {
    let mut cpu = machine(&[0x6081, 0x800E]);
    run(&mut cpu, 2);
    assert_eq!(cpu.register(0), 2);
    assert_eq!(cpu.register(0xF), 1);
    let mut cpu = machine(&[0x6041, 0x800E]);
    run(&mut cpu, 2);
    assert_eq!(cpu.register(0), 0x82);
    assert_eq!(cpu.register(0xF), 0);
}

#[test]
fn bitwise_operations() {
    let mut cpu = machine(&[0x60CA, 0x610F, 0x8011, 0x620C, 0x6306, 0x8232, 0x640C, 0x8433, 0x8540]);
    run(&mut cpu, 9);
    assert_eq!(cpu.register(0), 0xCF);
    assert_eq!(cpu.register(2), 0x04);
    assert_eq!(cpu.register(4), 0x0A);
    assert_eq!(cpu.register(5), 0x0A);
}

#[test]
fn call_then_return_resumes_after_call() {
    let mut cpu = machine(&[0x2206, 0x0000, 0x0000, 0x00EE]);
    run(&mut cpu, 1);
    assert_eq!(cpu.program_counter(), 0x206);
    assert_eq!(cpu.stack_depth(), 1);
    run(&mut cpu, 1);
    assert_eq!(cpu.program_counter(), 0x202);
    assert_eq!(cpu.stack_depth(), 0);
}

#[test]
fn seventeenth_nested_call_overflows() {
    let mut cpu = machine(&[0x2200]);
    run(&mut cpu, 16);
    assert_eq!(cpu.stack_depth(), 16);
    assert_eq!(cpu.step(&NO_KEYS), Err(CpuError::StackOverflow { pc: 0x200 }));
    assert_eq!(cpu.stack_depth(), 16);
    assert_eq!(cpu.program_counter(), 0x200);
}

#[test]
fn return_on_empty_stack_underflows() {
    let mut cpu = machine(&[0x00EE]);
    assert_eq!(cpu.step(&NO_KEYS), Err(CpuError::StackUnderflow { pc: 0x200 }));
    assert_eq!(cpu.program_counter(), 0x200);
}

#[test]
fn unknown_opcode_is_reported_with_its_address() {
    let mut cpu = machine(&[0x6001, 0x5121]);
    run(&mut cpu, 1);
    assert_eq!(cpu.step(&NO_KEYS), Err(CpuError::UnknownOpcode { pc: 0x202, opcode: 0x5121 }));
    assert_eq!(cpu.program_counter(), 0x202);
    assert_eq!(cpu.register(0), 1);
}

#[test]
fn largest_program_loads() {
    let rom = vec![0xAB; 0xE00];
    let cpu = CPU::new(&rom).expect("fits");
    assert_eq!(cpu.memory_at(0x200), 0xAB);
    assert_eq!(cpu.memory_at(0xFFF), 0xAB);
}

#[test]
fn oversized_program_is_refused_untouched() {
    let mut cpu = CPU::power_on();
    let rom = vec![0xAB; 0xE01];
    assert_eq!(cpu.load_program(&rom), Err(CpuError::ProgramTooLarge { len: 0xE01 }));
    assert_eq!(cpu.memory_at(0x200), 0);
    assert_eq!(cpu.memory_at(0xFFF), 0);
    assert!(matches!(CPU::new(&rom), Err(CpuError::ProgramTooLarge { len: 0xE01 })));
}

#[test]
fn power_on_installs_font() {
    let cpu = CPU::power_on();
    assert_eq!(cpu.program_counter(), 0x200);
    assert_eq!(cpu.memory_at(0), 0xF0);
    assert_eq!(cpu.memory_at(5), 0x20);
    assert_eq!(cpu.memory_at(79), 0x80);
    assert_eq!(cpu.memory_at(80), 0);
    assert_eq!(cpu.stack_depth(), 0);
}

#[test]
fn full_row_sprite_draws_and_erases() {
    let mut cpu = machine(&[0x6003, 0x6105, 0xA20A, 0xD011, 0xD011, 0xFF00]);
    run(&mut cpu, 3);
    assert_eq!(cpu.step(&NO_KEYS), Ok(Effect::Redraw));
    assert_eq!(cpu.register(0xF), 0);
    for col in 0..64 {
        for row in 0..32 {
            let expected = row == 5 && (3..11).contains(&col);
            assert_eq!(cpu.pixel(col, row), expected);
        }
    }
    assert_eq!(cpu.step(&NO_KEYS), Ok(Effect::Redraw));
    assert_eq!(cpu.register(0xF), 1);
    assert!(cpu.display_snapshot().iter().all(|p| !p));
}

#[test]
fn sprite_wraps_around_edges() {
    let mut cpu = machine(&[0x603C, 0x611F, 0xA20A, 0xD012, 0x0000, 0x81FF]);
    run(&mut cpu, 4);
    assert!(cpu.pixel(60, 31));
    assert!(!cpu.pixel(61, 31));
    assert!(!cpu.pixel(0, 31));
    assert!(cpu.pixel(3, 31));
    assert!(!cpu.pixel(4, 31));
    assert!(cpu.pixel(60, 0));
    assert!(cpu.pixel(63, 0));
    assert!(cpu.pixel(0, 0));
    assert!(cpu.pixel(3, 0));
    assert!(!cpu.pixel(4, 0));
    assert!(!cpu.pixel(59, 0));
}

#[test]
fn clear_screen_blanks_display() {
    let mut cpu = machine(&[0xA000, 0xD005, 0x00E0]);
    run(&mut cpu, 2);
    assert!(cpu.pixel(0, 0));
    assert_eq!(cpu.step(&NO_KEYS), Ok(Effect::Redraw));
    assert!(cpu.display_snapshot().iter().all(|p| !p));
}

#[test]
fn skips_compare_registers_and_immediates() {
    let mut cpu = machine(&[0x6005, 0x3005]);
    run(&mut cpu, 2);
    assert_eq!(cpu.program_counter(), 0x206);
    let mut cpu = machine(&[0x6005, 0x4005]);
    run(&mut cpu, 2);
    assert_eq!(cpu.program_counter(), 0x204);
    let mut cpu = machine(&[0x6005, 0x6105, 0x5010]);
    run(&mut cpu, 3);
    assert_eq!(cpu.program_counter(), 0x208);
    let mut cpu = machine(&[0x6005, 0x6105, 0x9010]);
    run(&mut cpu, 3);
    assert_eq!(cpu.program_counter(), 0x206);
}

#[test]
fn jumps_set_program_counter() {
    let mut cpu = machine(&[0x1345]);
    run(&mut cpu, 1);
    assert_eq!(cpu.program_counter(), 0x345);
    let mut cpu = machine(&[0x6010, 0xB300]);
    run(&mut cpu, 2);
    assert_eq!(cpu.program_counter(), 0x310);
    let mut cpu = machine(&[0x60FF, 0xBFFF]);
    run(&mut cpu, 2);
    assert_eq!(cpu.program_counter(), 0x0FE);
}

#[test]
fn key_skips_follow_snapshot() {
    let mut keys = [false; 16];
    keys[0xA] = true;
    let mut cpu = machine(&[0x601A, 0xE09E]);
    cpu.step(&keys).unwrap();
    cpu.step(&keys).unwrap();
    assert_eq!(cpu.program_counter(), 0x206);
    let mut cpu = machine(&[0x600A, 0xE0A1]);
    cpu.step(&keys).unwrap();
    cpu.step(&keys).unwrap();
    assert_eq!(cpu.program_counter(), 0x204);
    let mut cpu = machine(&[0x600B, 0xE0A1]);
    cpu.step(&keys).unwrap();
    cpu.step(&keys).unwrap();
    assert_eq!(cpu.program_counter(), 0x206);
}

#[test]
fn key_wait_repeats_until_a_key_is_pressed() {
    let mut cpu = machine(&[0xF30A]);
    assert_eq!(cpu.step(&NO_KEYS), Ok(Effect::AwaitingKey));
    assert_eq!(cpu.program_counter(), 0x200);
    assert_eq!(cpu.step(&NO_KEYS), Ok(Effect::AwaitingKey));
    let mut keys = [false; 16];
    keys[0x9] = true;
    keys[0xC] = true;
    assert_eq!(cpu.step(&keys), Ok(Effect::Continue));
    assert_eq!(cpu.register(3), 0x9);
    assert_eq!(cpu.program_counter(), 0x202);
}

#[test]
fn index_register_instructions() {
    let mut cpu = machine(&[0xA123, 0x6010, 0xF01E]);
    run(&mut cpu, 3);
    assert_eq!(cpu.index(), 0x133);
    let mut cpu = machine(&[0x600B, 0xF029]);
    run(&mut cpu, 2);
    assert_eq!(cpu.index(), 55);
    assert_eq!(cpu.memory_at(cpu.index()), 0xE0);
}

#[test]
fn bcd_store_writes_three_digits() {
    let mut cpu = machine(&[0x60FE, 0xA300, 0xF033]);
    run(&mut cpu, 3);
    assert_eq!(cpu.memory_at(0x300), 2);
    assert_eq!(cpu.memory_at(0x301), 5);
    assert_eq!(cpu.memory_at(0x302), 4);
    assert_eq!(cpu.index(), 0x300);
}

#[test]
fn block_store_and_load_leave_index() {
    let mut cpu = machine(&[0x6011, 0x6122, 0x6233, 0xA300, 0xF255, 0x6000, 0x6100, 0x6200, 0xF165]);
    run(&mut cpu, 9);
    assert_eq!(cpu.memory_at(0x300), 0x11);
    assert_eq!(cpu.memory_at(0x301), 0x22);
    assert_eq!(cpu.memory_at(0x302), 0x33);
    assert_eq!(cpu.memory_at(0x303), 0x00);
    assert_eq!(cpu.register(0), 0x11);
    assert_eq!(cpu.register(1), 0x22);
    assert_eq!(cpu.register(2), 0x00);
    assert_eq!(cpu.index(), 0x300);
}

#[test]
fn block_store_wraps_at_end_of_memory() {
    let mut cpu = machine(&[0x6011, 0x6122, 0xAFFF, 0xF155]);
    run(&mut cpu, 4);
    assert_eq!(cpu.memory_at(0xFFF), 0x11);
    assert_eq!(cpu.memory_at(0x000), 0x22);
}

#[test]
fn random_uses_given_byte_and_mask() {
    let mut cpu = machine(&[0xC00F]);
    assert_eq!(cpu.step_with_random(&NO_KEYS, 0xAB), Ok(Effect::Continue));
    assert_eq!(cpu.register(0), 0x0B);
}

#[test]
fn random_respects_mask() {
    for _ in 0..32 {
        let mut cpu = machine(&[0xC0F0, 0xC100]);
        run(&mut cpu, 2);
        assert_eq!(cpu.register(0) & 0x0F, 0);
        assert_eq!(cpu.register(1), 0);
    }
}

#[test]
fn execute_runs_a_decoded_instruction() {
    let mut cpu = machine(&[0x642A]);
    let word = cpu.fetch();
    let ins = decode(word).expect("known instruction");
    let r = cpu.execute(ins, &NO_KEYS, 0);
    assert_eq!(r, Ok(Effect::Continue));
    assert_eq!(cpu.register(4), 0x2A);
    assert_eq!(cpu.program_counter(), 0x202);
}

#[test]
fn execute_skip_counts_from_fetched_counter() {
    let mut cpu = machine(&[0x3000]);
    cpu.fetch();
    assert_eq!(cpu.execute(Instruction::SeImm { x: 0, kk: 0 }, &NO_KEYS, 0), Ok(Effect::Continue));
    assert_eq!(cpu.program_counter(), 0x204);
}

#[test]
fn nested_calls_unwind_in_reverse_order() {
    // 0x200: CALL 0x210; 0x210: CALL 0x220; 0x220: CALL 0x230; 0x230: RET;
    // 0x222: RET; 0x212: RET
    let mut words = vec![0u16; 0x20];
    words[0x00] = 0x2210;
    words[0x08] = 0x2220;
    words[0x09] = 0x00EE;
    words[0x10] = 0x2230;
    words[0x11] = 0x00EE;
    words[0x18] = 0x00EE;
    let mut cpu = machine(&words);
    run(&mut cpu, 3);
    assert_eq!(cpu.stack_depth(), 3);
    assert_eq!(cpu.program_counter(), 0x230);
    run(&mut cpu, 1);
    assert_eq!(cpu.program_counter(), 0x222);
    run(&mut cpu, 1);
    assert_eq!(cpu.program_counter(), 0x212);
    run(&mut cpu, 1);
    assert_eq!(cpu.program_counter(), 0x202);
    assert_eq!(cpu.stack_depth(), 0);
}

#[test]
fn reset_restores_power_on_state() {
    let mut cpu = machine(&[0x6005, 0xA300, 0x2300]);
    run(&mut cpu, 3);
    cpu.reset();
    assert_eq!(cpu.register(0), 0);
    assert_eq!(cpu.index(), 0);
    assert_eq!(cpu.program_counter(), 0x200);
    assert_eq!(cpu.stack_depth(), 0);
    assert_eq!(cpu.memory_at(0x200), 0);
}

#[test]
fn fetch_reads_big_endian_word_and_advances() {
    let mut cpu = machine(&[0x12AB, 0x34CD]);
    assert_eq!(cpu.fetch(), 0x12AB);
    assert_eq!(cpu.program_counter(), 0x202);
    assert_eq!(cpu.fetch(), 0x34CD);
    assert_eq!(cpu.program_counter(), 0x204);
}

#[test]
fn decoder_fields() {
    assert_eq!(nibbles(0xD12F), (0xD, 0x1, 0x2, 0xF));
    assert_eq!(nnn(0xD12F), 0x12F);
    assert_eq!(kk(0xD12F), 0x2F);
}

#[test]
fn decoder_table() {
    assert_eq!(decode(0x00E0), Some(Instruction::Cls));
    assert_eq!(decode(0x00EE), Some(Instruction::Ret));
    assert_eq!(decode(0x0123), Some(Instruction::Sys { nnn: 0x123 }));
    assert_eq!(decode(0x8AB6), Some(Instruction::Shr { x: 0xA, y: 0xB }));
    assert_eq!(decode(0xD345), Some(Instruction::Drw { x: 3, y: 4, n: 5 }));
    assert_eq!(decode(0xF265), Some(Instruction::LoadRegs { x: 2 }));
    assert_eq!(decode(0x8008), None);
    assert_eq!(decode(0x9001), None);
    assert_eq!(decode(0xE000), None);
    assert_eq!(decode(0xF000), None);
}
