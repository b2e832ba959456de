use rustyboy_core::bus::{diagnostic, Diagnostic, MemoryBus};
use rustyboy_core::cartridge::Cartridge;
use rustyboy_core::cpu::opcode::Opcode;
use rustyboy_core::cpu::registers::Flags;
use rustyboy_core::cpu::{is_undefined, Cpu, Diagnostics};
use rustyboy_core::gpu::LcdStatus;
use rustyboy_core::interrupts::Interrupt;
use rustyboy_core::joypad::Button;
use rustyboy_core::mbc::from_cartridge;
use rustyboy_core::GameBoy;

fn image(program: &[u8], mapper: u8) -> Vec<u8> {
    let mut data = vec![0u8; 0x8000];
    data[0x147] = mapper;
    data[0x149] = 2;
    for (i, byte) in program.iter().enumerate() {
        data[0x150 + i] = *byte;
    }
    // entry point: JP 0x0150
    data[0x100] = 0xC3;
    data[0x101] = 0x50;
    data[0x102] = 0x01;
    data
}

fn console(program: &[u8]) -> GameBoy {
    let mut gb = GameBoy::new(from_cartridge(Cartridge::from_data(image(program, 0))).unwrap());
    assert_eq!(gb.step(), 16);
    assert_eq!(gb.cpu.regs.pc, 0x150);
    gb
}

fn bus() -> MemoryBus {
    MemoryBus::new(from_cartridge(Cartridge::from_data(image(&[], 2))).unwrap())
}

#[test]
fn serial_byte_is_available_after_one_update() {
    // LD A,0x42; LDH [0x01],A; LD A,0x81; LDH [0x02],A; JR -2
    let program = [0x3E, 0x42, 0xE0, 0x01, 0x3E, 0x81, 0xE0, 0x02, 0x18, 0xFE];
    let mut data = vec![0u8; 0x8000];
    for (i, byte) in program.iter().enumerate() {
        data[0x100 + i] = *byte;
    }
    let mut gb = GameBoy::new(from_cartridge(Cartridge::from_data(data)).unwrap());
    assert_eq!(gb.take_serial_byte(), None);
    gb.update(40);
    assert_eq!(gb.take_serial_byte(), Some(0x42));
    assert_eq!(gb.take_serial_byte(), None);
    assert_eq!(gb.mem.read8(0xFF02), 0x01);
    gb.update(1000);
    assert_eq!(gb.take_serial_byte(), None);
    assert_eq!(gb.cpu.regs.pc, 0x108);
}

#[test]
fn halt_waits_for_a_pending_interrupt() {
    // DI; HALT; NOP; NOP; NOP
    let mut gb = console(&[0xF3, 0x76, 0x00, 0x00, 0x00]);
    gb.mem.write8(0xFF0F, 0);
    assert_eq!(gb.step(), 4); // DI
    assert_eq!(gb.step(), 4); // HALT
    assert_eq!(gb.cpu.regs.pc, 0x152);
    for _ in 0..1000 {
        assert_eq!(gb.step(), 4);
        assert_eq!(gb.cpu.regs.pc, 0x152);
    }
    assert!(!gb.cpu.ime.enabled());
    // a flagged interrupt that is not enabled is not pending
    gb.mem.interrupts.flag(Interrupt::Joypad, true);
    assert_eq!(gb.step(), 4);
    assert_eq!(gb.cpu.regs.pc, 0x152);
    // once it is enabled the processor wakes up, skips one byte and does not service it
    gb.mem.write8(0xFFFF, 0x10);
    assert_eq!(gb.step(), 4);
    assert_eq!(gb.cpu.regs.pc, 0x153);
    assert!(gb.mem.interrupts.is_flagged(Interrupt::Joypad));
    assert_eq!(gb.step(), 4);
    assert_eq!(gb.cpu.regs.pc, 0x154);
}

#[test]
fn interrupt_is_serviced_with_the_switch_open() {
    // EI; NOP; NOP; HALT
    let mut gb = console(&[0xFB, 0x00, 0x00, 0x76]);
    gb.mem.write8(0xFF0F, 0);
    gb.cpu.ime = rustyboy_core::cpu::ime::InterruptMasterEnable::new(false);
    assert_eq!(gb.step(), 4); // EI: the switch opens with one step of delay
    assert!(!gb.cpu.ime.enabled());
    assert_eq!(gb.step(), 4);
    assert!(gb.cpu.ime.enabled());
    gb.mem.write8(0xFFFF, 0x04);
    gb.mem.interrupts.flag(Interrupt::Timer, true);
    assert_eq!(gb.step(), 16);
    assert_eq!(gb.cpu.regs.pc, 0x50);
    assert_eq!(gb.cpu.regs.sp, 0xFFFC);
    assert_eq!(gb.mem.read16(0xFFFC), 0x152);
    assert!(!gb.cpu.ime.enabled());
    assert!(!gb.mem.interrupts.is_flagged(Interrupt::Timer));
}

#[test]
fn halted_processor_wakes_for_service_in_twenty_cycles() {
    // HALT
    let mut gb = console(&[0x76]);
    gb.mem.write8(0xFF0F, 0);
    assert_eq!(gb.step(), 4);
    assert_eq!(gb.step(), 4);
    gb.mem.write8(0xFFFF, 0x01);
    gb.mem.interrupts.flag(Interrupt::VBlank, true);
    assert_eq!(gb.step(), 20);
    assert_eq!(gb.cpu.regs.pc, 0x40);
    assert_eq!(gb.mem.read16(0xFFFC), 0x151);
}

#[test]
fn loads_arithmetic_and_jumps() {
    let program = [
        0x06, 0x12, // LD B,0x12
        0x0E, 0x34, // LD C,0x34
        0x78, // LD A,B
        0x81, // ADD A,C
        0x21, 0x00, 0xC0, // LD HL,0xC000
        0x77, // LD [HL],A
        0x34, // INC [HL]
        0x7E, // LD A,[HL]
        0xFE, 0x47, // CP 0x47
        0x28, 0x01, // JR Z,+1
        0x76, // HALT (skipped)
        0xC5, // PUSH BC
        0xD1, // POP DE
        0xCD, 0x70, 0x01, // CALL 0x0170
    ];
    let mut gb = console(&program);
    let cycles = [8, 8, 4, 4, 12, 8, 12, 8, 8, 12, 16, 12, 24];
    for expected in cycles {
        assert_eq!(gb.step(), expected);
    }
    assert_eq!(gb.cpu.regs.a, 0x47);
    assert_eq!(gb.cpu.regs.flags, Flags::new(false, false, true, true));
    assert_eq!(gb.cpu.regs.de(), 0x1234);
    assert_eq!(gb.mem.read8(0xC000), 0x47);
    assert_eq!(gb.cpu.regs.pc, 0x170);
    assert_eq!(gb.cpu.regs.sp, 0xFFFC);
    assert_eq!(gb.mem.read16(0xFFFC), 0x166);
    assert!(!gb.cpu.halted);
}

#[test]
fn prefixed_instructions_and_returns() {
    let program = [
        0x3E, 0x81, // LD A,0x81
        0xCB, 0x07, // RLC A
        0xCB, 0x37, // SWAP A
        0xCB, 0x7F, // BIT 7,A
        0x21, 0x10, 0xC0, // LD HL,0xC010
        0xCB, 0xC6, // SET 0,[HL]
        0xCB, 0xFE, // SET 7,[HL]
        0xCB, 0x86, // RES 0,[HL]
        0xCB, 0x46, // BIT 0,[HL]
        0xC7, // RST 0x00
    ];
    let mut gb = console(&program);
    let cycles = [8, 8, 8, 8, 12, 16, 16, 16, 12, 16];
    for expected in cycles {
        assert_eq!(gb.step(), expected);
    }
    assert_eq!(gb.cpu.regs.a, 0x30);
    assert_eq!(gb.mem.read8(0xC010), 0x80);
    assert!(gb.cpu.regs.flags.zero());
    assert!(gb.cpu.regs.flags.half_carry());
    assert_eq!(gb.cpu.regs.pc, 0x0000);
    assert_eq!(gb.mem.read16(0xFFFC), 0x164);
}

#[test]
fn undefined_opcodes_take_four_cycles_and_do_nothing() {
    let undefined = [0xD3u8, 0xDB, 0xDD, 0xE3, 0xE4, 0xEB, 0xEC, 0xED, 0xF4, 0xFC, 0xFD];
    let mut count = 0;
    for op in 0..=255u8 {
        if is_undefined(op) {
            count += 1;
            assert!(undefined.contains(&op));
        }
    }
    assert_eq!(count, 11);
    let mut gb = console(&undefined);
    for i in 0..11u16 {
        let before = gb.cpu.regs;
        assert_eq!(gb.step(), 4);
        assert_eq!(gb.cpu.regs.pc, 0x151 + i);
        assert_eq!(gb.cpu.regs.af(), before.af());
        assert_eq!(gb.cpu.regs.sp, before.sp);
        assert_eq!(gb.cpu.diagnostics.undefined_opcodes, i as u64 + 1);
    }
    assert_eq!(gb.cpu.diagnostics.echo_ram, 0);
    assert_eq!(gb.cpu.diagnostics.prohibited, 0);
}

#[test]
fn unusual_accesses_are_counted_and_served() {
    let program = [
        0x3E, 0x5A, // LD A,0x5A
        0xEA, 0x00, 0xC0, // LD [0xC000],A
        0xFA, 0x00, 0xE0, // LD A,[0xE000]: the mirror of 0xC000
        0xEA, 0xA0, 0xFE, // LD [0xFEA0],A: dropped
        0xFA, 0xA0, 0xFE, // LD A,[0xFEA0]: reads 0xFF
        0x21, 0xFF, 0xFD, // LD HL,0xFDFF
        0x34, // INC [HL]: one read and one write in the mirror
        0x31, 0x01, 0xE0, // LD SP,0xE001
        0xC5, // PUSH BC: two writes in the mirror, at 0xDFFF and 0xE000
    ];
    let mut gb = console(&program);
    assert_eq!(gb.cpu.diagnostics, Diagnostics { echo_ram: 0, prohibited: 0, undefined_opcodes: 0 });
    gb.step();
    gb.step();
    assert_eq!(gb.cpu.diagnostics.echo_ram, 0);
    gb.step();
    assert_eq!(gb.cpu.regs.a, 0x5A);
    assert_eq!(gb.cpu.diagnostics.echo_ram, 1);
    gb.step();
    assert_eq!(gb.cpu.diagnostics.prohibited, 1);
    gb.step();
    assert_eq!(gb.cpu.regs.a, 0xFF);
    assert_eq!(gb.cpu.diagnostics.prohibited, 2);
    gb.step();
    gb.step();
    assert_eq!(gb.mem.read8(0xDDFF), 1);
    assert_eq!(gb.cpu.diagnostics.echo_ram, 3);
    gb.step();
    gb.step();
    assert_eq!(gb.cpu.regs.sp, 0xDFFF);
    assert_eq!(gb.cpu.diagnostics.echo_ram, 4);
    assert_eq!(gb.cpu.diagnostics.undefined_opcodes, 0);
}

#[test]
fn execute_outside_a_console() {
    let mut cpu = Cpu::new();
    let mut mem = bus();
    assert_eq!(cpu.regs.af(), 0x01B0);
    assert_eq!(cpu.regs.bc(), 0x0013);
    assert_eq!(cpu.regs.de(), 0x00D8);
    assert_eq!(cpu.regs.hl(), 0x014D);
    assert_eq!(cpu.execute(Opcode(0x23), &mut mem), 8); // INC HL
    assert_eq!(cpu.regs.hl(), 0x014E);
    assert_eq!(cpu.execute(Opcode(0x3F), &mut mem), 4); // CCF
    assert!(!cpu.regs.flags.carry());
    assert_eq!(cpu.execute(Opcode(0x37), &mut mem), 4); // SCF
    assert!(cpu.regs.flags.carry());
    assert!(cpu.evaluate_flag_condition(3));
    assert!(cpu.evaluate_flag_condition(1));
    assert!(!cpu.evaluate_flag_condition(0));
    assert_eq!(cpu.execute(Opcode(0xE9), &mut mem), 4); // JP HL
    assert_eq!(cpu.regs.pc, 0x014E);
    assert_eq!(cpu.execute(Opcode(0xF9), &mut mem), 8); // LD SP,HL
    assert_eq!(cpu.regs.sp, 0x014E);
    assert_eq!(cpu.execute(Opcode(0x2F), &mut mem), 4); // CPL
    assert_eq!(cpu.regs.a, 0xFE);
    assert_eq!(cpu.execute(Opcode(0x07), &mut mem), 4); // RLCA
    assert_eq!(cpu.regs.a, 0xFD);
    assert!(!cpu.regs.flags.zero());
}

#[test]
fn sixteen_bit_round_trip_in_every_plain_region() {
    let mut mem = bus();
    let addresses =
        [0x8000u16, 0x9FFE, 0xC000, 0xDFFE, 0xDFFF, 0xE000, 0xFDFE, 0xFDFF, 0xFE00, 0xFE9E, 0xFF80, 0xFFFD];
    for (i, addr) in addresses.iter().enumerate() {
        let value = 0x1234u16.wrapping_mul(i as u16 + 1) ^ 0xA55A;
        mem.write16(*addr, value);
        assert_eq!(mem.read16(*addr), value);
        assert_eq!(mem.read8(*addr), (value & 0xFF) as u8);
        assert_eq!(mem.read8(addr + 1), (value >> 8) as u8);
    }
}

#[test]
fn address_decoding() {
    let mut mem = bus();
    // echo RAM mirrors working RAM
    mem.write8(0xC123, 0x11);
    assert_eq!(mem.read8(0xE123), 0x11);
    mem.write8(0xFDFF, 0x22);
    assert_eq!(mem.read8(0xDDFF), 0x22);
    // the prohibited region reads 0xFF and drops writes
    mem.write8(0xFEA0, 0x33);
    assert_eq!(mem.read8(0xFEA0), 0xFF);
    assert_eq!(mem.read8(0xFEFF), 0xFF);
    // audio is a stub
    mem.write8(0xFF10, 0x44);
    assert_eq!(mem.read8(0xFF10), 0);
    assert_eq!(mem.read8(0xFF3F), 0);
    // LY is read-only
    let ly = mem.read8(0xFF44);
    mem.write8(0xFF44, ly.wrapping_add(1));
    assert_eq!(mem.read8(0xFF44), ly);
    // registers
    let registers = [
        0xFF01u16, 0xFF02, 0xFF04, 0xFF05, 0xFF06, 0xFF07, 0xFF0F, 0xFF40, 0xFF41, 0xFF42, 0xFF43,
        0xFF45, 0xFF46, 0xFF47, 0xFF48, 0xFF49, 0xFF4A, 0xFF4B, 0xFFFF,
    ];
    for (i, addr) in registers.iter().enumerate() {
        mem.write8(*addr, 0x50 + i as u8);
    }
    for (i, addr) in registers.iter().enumerate() {
        assert_eq!(mem.read8(*addr), 0x50 + i as u8);
    }
    assert_eq!(mem.serial.data, 0x50);
    assert_eq!(mem.timer.control, 0x55);
    assert_eq!(mem.interrupts.flag, 0x56);
    assert_eq!(mem.gpu.lcd_status.status(), LcdStatus::HBlank);
    assert_eq!(mem.gpu.window_x, 0x61);
    assert_eq!(mem.interrupts.enable, 0x62);
    // the joypad
    mem.joypad.set_button(Button::Start, true);
    mem.write8(0xFF00, 0b010000);
    assert_eq!(mem.read8(0xFF00), 0b10111);
    // unmapped
    mem.write8(0xFF50, 1);
    assert_eq!(mem.read8(0xFF50), 0);
    // cartridge RAM through the bank controller
    mem.write8(0x0000, 0x0A);
    mem.write8(0xA010, 0x77);
    assert_eq!(mem.read8(0xA010), 0x77);
    assert_eq!(mem.read8(0x0100), 0xC3);

    assert_eq!(diagnostic(0xE000), Some(Diagnostic::EchoRam));
    assert_eq!(diagnostic(0xFDFF), Some(Diagnostic::EchoRam));
    assert_eq!(diagnostic(0xFEA0), Some(Diagnostic::Prohibited));
    assert_eq!(diagnostic(0xFEFF), Some(Diagnostic::Prohibited));
    assert_eq!(diagnostic(0xFE9F), None);
    assert_eq!(diagnostic(0xDFFF), None);
}

#[test]
fn transfer_into_the_sprite_table_takes_640_cycles() {
    let mut mem = bus();
    for i in 0..160u16 {
        mem.write8(0xC100 + i, i as u8 + 1);
    }
    mem.write8(0xFF46, 0xC1);
    assert!(mem.pending_oam_transfer);
    mem.update(636);
    assert_eq!(mem.read8(0xFE00), 0);
    mem.update(4);
    assert!(!mem.pending_oam_transfer);
    for i in 0..160u16 {
        assert_eq!(mem.read8(0xFE00 + i), i as u8 + 1);
    }
    assert_eq!(mem.read8(0xFF46), 0xC1);
    mem.write8(0xC100, 0xEE);
    mem.update(1000);
    assert_eq!(mem.read8(0xFE00), 1);
}

#[test]
fn console_surface() {
    let mut gb = console(&[0x18, 0xFE]);
    gb.joypad().set_button(Button::B, true);
    gb.mem.write8(0xFF00, 0b010000);
    assert_eq!(gb.joypad().get_byte(), 0b11101);
    assert_eq!(gb.mem.read8(0xFF00), 0b11101);
    assert_eq!(gb.screen().get(0, 0), rustyboy_core::screen::Colour::DarkGrey);
    assert_eq!(gb.screen().get(200, 0), rustyboy_core::screen::Colour::Black);
    let before = gb.mem.timer.divider;
    gb.update(256 * 3);
    assert_eq!(gb.mem.timer.divider, before.wrapping_add(3));
    assert_eq!(gb.cpu.regs.pc, 0x150);
}

#[test]
fn update_takes_the_fewest_steps_that_reach_the_budget() {
    // entry point: JP 0x0150 (16 cycles); then NOP (4), NOP (4), LD A,0x01 (8)
    let mut gb = GameBoy::new(
        from_cartridge(Cartridge::from_data(image(&[0x00, 0x00, 0x3E, 0x01], 0))).unwrap(),
    );
    gb.update(0);
    assert_eq!(gb.cpu.regs.pc, 0x100);
    gb.update(1);
    assert_eq!(gb.cpu.regs.pc, 0x150);
    gb.update(4);
    assert_eq!(gb.cpu.regs.pc, 0x151);
    gb.update(5);
    assert_eq!(gb.cpu.regs.pc, 0x154);
    assert_eq!(gb.cpu.regs.a, 0x01);
}

fn run(gb: &mut GameBoy, cycles: &[u32]) {
    for (i, expected) in cycles.iter().enumerate() {
        assert_eq!(gb.step(), *expected, "step {}", i);
    }
}

#[test]
fn conditional_jumps_calls_and_returns() {
    let mut program = [0u8; 0x30];
    program[0x00] = 0xAF; // XOR A
    program[0x01..0x04].copy_from_slice(&[0xC2, 0x00, 0x02]); // JP NZ,0x0200
    program[0x04..0x07].copy_from_slice(&[0xCA, 0x60, 0x01]); // JP Z,0x0160
    program[0x10..0x13].copy_from_slice(&[0xDC, 0x00, 0x03]); // CALL C,0x0300
    program[0x13..0x16].copy_from_slice(&[0xCC, 0x70, 0x01]); // CALL Z,0x0170
    program[0x16] = 0x37; // SCF
    program[0x17..0x19].copy_from_slice(&[0x38, 0x02]); // JR C,+2
    program[0x1B..0x1D].copy_from_slice(&[0x30, 0x7F]); // JR NC,+127
    program[0x1D..0x1F].copy_from_slice(&[0x18, 0xFE]); // JR -2
    program[0x20] = 0xC0; // RET NZ
    program[0x21] = 0xC8; // RET Z
    let mut gb = console(&program);
    run(&mut gb, &[4, 12, 16, 12]);
    assert_eq!(gb.cpu.regs.pc, 0x163);
    run(&mut gb, &[24]);
    assert_eq!(gb.cpu.regs.pc, 0x170);
    assert_eq!(gb.cpu.regs.sp, 0xFFFC);
    assert_eq!(gb.mem.read16(0xFFFC), 0x166);
    run(&mut gb, &[8, 20]);
    assert_eq!(gb.cpu.regs.pc, 0x166);
    assert_eq!(gb.cpu.regs.sp, 0xFFFE);
    run(&mut gb, &[4, 12]);
    assert_eq!(gb.cpu.regs.pc, 0x16B);
    run(&mut gb, &[8, 12, 12]);
    assert_eq!(gb.cpu.regs.pc, 0x16D);
    assert_eq!(gb.cpu.regs.flags.0, 0x90);
}

#[test]
fn sixteen_bit_arithmetic_and_the_stack() {
    let program = [
        0x01, 0xFF, 0x0F, // LD BC,0x0FFF
        0x21, 0x01, 0x00, // LD HL,0x0001
        0x09, // ADD HL,BC
        0x03, // INC BC
        0x2B, // DEC HL
        0xF5, // PUSH AF
        0xD1, // POP DE
        0x31, 0x00, 0xD0, // LD SP,0xD000
        0xE8, 0xFE, // ADD SP,-2
        0xF8, 0x02, // LD HL,SP+2
        0xF9, // LD SP,HL
        0x08, 0x00, 0xC1, // LD [0xC100],SP
        0x3E, 0x0F, // LD A,0x0F
        0xC6, 0x01, // ADD A,0x01
        0x27, // DAA
        0xF1, // POP AF
    ];
    let mut gb = console(&program);
    assert_eq!(gb.cpu.regs.flags.0, 0xB0);
    run(&mut gb, &[12, 12, 8]);
    assert_eq!(gb.cpu.regs.hl(), 0x1000);
    assert_eq!(gb.cpu.regs.flags.0, 0xA0);
    run(&mut gb, &[8, 8]);
    assert_eq!(gb.cpu.regs.bc(), 0x1000);
    assert_eq!(gb.cpu.regs.hl(), 0x0FFF);
    assert_eq!(gb.cpu.regs.flags.0, 0xA0);
    run(&mut gb, &[16, 12]);
    assert_eq!(gb.cpu.regs.de(), 0x01A0);
    assert_eq!(gb.cpu.regs.sp, 0xFFFE);
    run(&mut gb, &[12, 16]);
    assert_eq!(gb.cpu.regs.sp, 0xCFFE);
    assert_eq!(gb.cpu.regs.flags.0, 0x00);
    run(&mut gb, &[12]);
    assert_eq!(gb.cpu.regs.hl(), 0xD000);
    assert_eq!(gb.cpu.regs.flags.0, 0x30);
    run(&mut gb, &[8, 20]);
    assert_eq!(gb.cpu.regs.sp, 0xD000);
    assert_eq!(gb.mem.read8(0xC100), 0x00);
    assert_eq!(gb.mem.read8(0xC101), 0xD0);
    run(&mut gb, &[8, 8]);
    assert_eq!(gb.cpu.regs.a, 0x10);
    assert_eq!(gb.cpu.regs.flags.0, 0x20);
    run(&mut gb, &[4]);
    assert_eq!(gb.cpu.regs.a, 0x16);
    assert_eq!(gb.cpu.regs.flags.0, 0x00);
    run(&mut gb, &[12]);
    assert_eq!(gb.cpu.regs.af(), 0x0000);
    assert_eq!(gb.cpu.regs.sp, 0xD002);
}

#[test]
fn loads_through_hl_and_the_high_page() {
    let program = [
        0x21, 0x00, 0xC0, // LD HL,0xC000
        0x3E, 0x11, // LD A,0x11
        0x22, // LD [HL+],A
        0x3C, // INC A
        0x32, // LD [HL-],A
        0x2A, // LD A,[HL+]
        0x3A, // LD A,[HL-]
        0xE0, 0x80, // LDH [0x80],A
        0x0E, 0x81, // LD C,0x81
        0xE2, // LDH [C],A
        0xAF, // XOR A
        0xF0, 0x80, // LDH A,[0x80]
        0x36, 0x77, // LD [HL],0x77
        0x46, // LD B,[HL]
        0x70, // LD [HL],B
        0x96, // SUB [HL]
        0x10, 0x00, // STOP
    ];
    let mut gb = console(&program);
    run(&mut gb, &[12, 8, 8, 4, 8]);
    assert_eq!(gb.mem.read8(0xC000), 0x11);
    assert_eq!(gb.mem.read8(0xC001), 0x12);
    assert_eq!(gb.cpu.regs.hl(), 0xC000);
    run(&mut gb, &[8]);
    assert_eq!(gb.cpu.regs.a, 0x11);
    assert_eq!(gb.cpu.regs.hl(), 0xC001);
    run(&mut gb, &[8]);
    assert_eq!(gb.cpu.regs.a, 0x12);
    assert_eq!(gb.cpu.regs.hl(), 0xC000);
    run(&mut gb, &[12, 8, 8]);
    assert_eq!(gb.mem.read8(0xFF80), 0x12);
    assert_eq!(gb.mem.read8(0xFF81), 0x12);
    run(&mut gb, &[4, 12]);
    assert_eq!(gb.cpu.regs.a, 0x12);
    run(&mut gb, &[12, 8, 8]);
    assert_eq!(gb.cpu.regs.b, 0x77);
    assert_eq!(gb.mem.read8(0xC000), 0x77);
    run(&mut gb, &[8]);
    assert_eq!(gb.cpu.regs.a, 0x9B);
    assert_eq!(gb.cpu.regs.flags.0, 0x70);
    run(&mut gb, &[4]);
    assert!(gb.cpu.halted);
    assert_eq!(gb.cpu.regs.pc, 0x169);
}

#[test]
fn transfer_from_the_mirror_of_working_ram() {
    let mut mem = bus();
    for i in 0..160u16 {
        mem.write8(0xC200 + i, 0xFF - i as u8);
    }
    mem.write8(0xFF46, 0xE2);
    mem.update(24);
    assert!(mem.pending_oam_transfer);
    mem.update(616);
    assert!(!mem.pending_oam_transfer);
    for i in 0..160u16 {
        assert_eq!(mem.read8(0xFE00 + i), 0xFF - i as u8);
    }
    // a second request starts the count again
    mem.write8(0xC200, 0x01);
    mem.write8(0xFF46, 0xC2);
    mem.update(639);
    assert_eq!(mem.read8(0xFE00), 0xFF);
    mem.update(1);
    assert_eq!(mem.read8(0xFE00), 0x01);
}
