//! End-to-end scenarios running whole programs through the core, plus
//! register, timer and bank-switching checks on concrete values.
use gb::Flag;
use gb::Register;
use gb::Registers;
use gb::RestoreError;
use gb::Timer;
use gb::CPU;

/// A 32 KiB flat cartridge (no bank controller) with a program at 0x0100.
fn flat_cart(program: &[u8]) -> Vec<u8> {
    let mut rom = vec![0u8; 0x8000];
    rom[0x147] = 0x00;
    rom[0x149] = 0x00;
    for (i, b) in program.iter().enumerate() {
        rom[0x100 + i] = *b;
    }
    rom
}

fn boot_cpu(program: &[u8]) -> CPU {
    let mut cpu = CPU::default();
    cpu.bus.load_cartridge(flat_cart(program)).unwrap();
    cpu.initialize_core();
    cpu
}

#[test]
fn add_overflow_program_halts() {
    // LD A,0x42; LD B,0xFF; ADD A,B; HALT
    let mut cpu = boot_cpu(&[0x3E, 0x42, 0x06, 0xFF, 0x80, 0x76, 0x00]);
    let mut guard = 0;
    while !cpu.is_halted && guard < 200 {
        cpu.step();
        guard += 1;
    }
    assert!(cpu.is_halted);
    assert_eq!(cpu.registers.a, 0x41);
    assert_eq!(cpu.registers.get_flag(Flag::Z), 0);
    assert_eq!(cpu.registers.get_flag(Flag::N), 0);
    assert_eq!(cpu.registers.get_flag(Flag::H), 1);
    assert_eq!(cpu.registers.get_flag(Flag::C), 1);
}

#[test]
fn mbc1_bank_coercion() {
    // A 64-bank (1 MiB) MBC1 cartridge with a marker byte in each bank.
    let mut rom = vec![0u8; 0x100000];
    rom[0x147] = 0x01;
    rom[0x149] = 0x00;
    rom[0x4000] = 0xA1; // bank 1
    rom[0x80000] = 0xB2; // bank 0x20
    let mut cpu = CPU::default();
    cpu.bus.load_cartridge(rom).unwrap();
    // Writing 0x00 to the bank register selects bank 1.
    cpu.bus.write(0x2000, 0x00);
    assert_eq!(cpu.bus.read(0x4000), 0xA1);
    // Writing 0x20 selects bank 0x20 (no coercion).
    cpu.bus.write(0x2000, 0x20);
    assert_eq!(cpu.bus.read(0x4000), 0xB2);
}

#[test]
fn pop_af_round_trip_masks_f() {
    // LD SP,0xD000 is baked via registers; program: POP AF; PUSH AF; POP AF; HALT
    let mut cpu = boot_cpu(&[0xF1, 0xF5, 0xF1, 0x76]);
    cpu.sp = 0xD000;
    cpu.bus.write(0xD000, 0x5A); // low byte -> F, low nibble must vanish
    cpu.bus.write(0xD001, 0x77); // high byte -> A
    let mut guard = 0;
    while !cpu.is_halted && guard < 100 {
        cpu.step();
        guard += 1;
    }
    assert!(cpu.is_halted);
    assert_eq!(cpu.registers.a, 0x77);
    assert_eq!(cpu.registers.f, 0x50);
    assert_eq!(cpu.registers.f & 0x0F, 0);
}

#[test]
fn timer_counts_falling_edges() {
    let mut t = Timer::default();
    t.write_registers(0xFF07, 0x05); // enable, 16-count clock (bit 3)
    t.write_registers(0xFF05, 0x00);
    // 16 sysclock counts per TIMA step; one update is 4 counts.
    for _ in 0..16 {
        t.update();
    }
    assert_eq!(t.read_registers(0xFF05), 4);
}

#[test]
fn timer_overflow_reloads_tma() {
    let mut t = Timer::default();
    t.write_registers(0xFF07, 0x05);
    t.write_registers(0xFF06, 0xFE); // TMA
    t.write_registers(0xFF05, 0xFF); // TIMA about to overflow
    for _ in 0..4 {
        t.update();
    }
    assert_eq!(t.read_registers(0xFF05), 0xFE);
    assert_eq!(t.tima_irq, 2);
}

#[test]
fn registers_pairs_and_flags() {
    let mut r = Registers::default();
    r.set_bc(0x1234);
    assert_eq!(r.get_bc(), 0x1234);
    assert_eq!(r.get(Register::B), 0x12);
    assert_eq!(r.get(Register::C), 0x34);
    r.set_flag(Flag::Z, true);
    r.set_flag(Flag::C, true);
    assert_eq!(r.get_flag(Flag::Z), 1);
    assert_eq!(r.get_flag(Flag::C), 1);
    assert_eq!(r.f, 0x90);
    r.set_flag(Flag::Z, false);
    assert_eq!(r.f, 0x10);
}

#[test]
fn ei_delay_slot_defers_interrupt() {
    // EI; DI; EI; NOP; NOP with a pending VBLANK: the vector is taken only
    // after the NOP following the second EI retires.
    let mut cpu = boot_cpu(&[0xFB, 0xF3, 0xFB, 0x00, 0x00, 0x00]);
    cpu.bus.write(0xFFFF, 0x01); // IE: VBLANK
    cpu.bus.write(0xFF0F, 0x01); // IF: VBLANK pending
    cpu.sp = 0xD000;
    // EI (1 cycle), DI (1), EI (1), NOP (1) -> dispatch begins, 5 cycles.
    for _ in 0..4 {
        cpu.step();
    }
    assert!(cpu.interrupt_tick_state.is_some());
    assert!(!cpu.ime);
    for _ in 0..5 {
        cpu.step();
    }
    assert_eq!(cpu.pc, 0x40);
    // The return address (the second NOP at 0x104) was pushed.
    assert_eq!(cpu.bus.read(0xCFFF), 0x01);
    assert_eq!(cpu.bus.read(0xCFFE), 0x04);
}

#[test]
fn halt_bug_executes_next_byte_twice() {
    // DI; HALT; INC A with IE and IF already pending: HALT does not halt,
    // and the INC A byte is fetched twice, so A gains 2.
    let mut cpu = boot_cpu(&[0xF3, 0x76, 0x3C, 0x76]);
    cpu.bus.write(0xFFFF, 0x01);
    cpu.bus.write(0xFF0F, 0x01);
    cpu.registers.a = 0;
    for _ in 0..30 {
        cpu.step();
    }
    assert!(!cpu.is_halted);
    assert_eq!(cpu.registers.a, 2);
}

#[test]
fn reserved_opcode_freezes_core() {
    let mut cpu = boot_cpu(&[0xD3]);
    for _ in 0..4 {
        cpu.step();
    }
    assert!(cpu.fault);
    assert!(cpu.next_frame(-1).is_err());
}

#[test]
fn frame_of_solid_tile_color() {
    // LCDC=0x91, BG map 0x9800 all tile 1, tile 1 planes all 0xFF: every
    // pixel of the frame is color identifier 3 through the default BGP.
    let mut cpu = CPU::default();
    cpu.bus.load_cartridge(flat_cart(&[0x00, 0x18, 0xFE])) // NOP; JR -2
        .unwrap();
    cpu.pc = 0x0100;
    cpu.bus.write(0xFF40, 0x91);
    cpu.bus.write(0xFF47, 0xFC); // BGP: id 3 -> 3
    for i in 0..0x400u16 {
        cpu.bus.write(0x9800 + i, 0x01);
    }
    for i in 0..16u16 {
        cpu.bus.write(0x8010 + i, 0xFF);
    }
    // The PPU powers on mid-scanline, so the first latched frame misses
    // its opening line; the second frame is fully drawn.
    let _ = cpu.next_frame(-1).unwrap();
    let frame = cpu.next_frame(-1).unwrap();
    assert_eq!(frame.len(), 23040);
    assert!(frame.iter().all(|&p| p == 3));
}

#[test]
fn vram_blocked_during_draw_reads_ff() {
    let mut cpu = CPU::default();
    cpu.bus.load_cartridge(flat_cart(&[0x00, 0x18, 0xFE])).unwrap();
    cpu.bus.write(0x8000, 0x5A);
    assert_eq!(cpu.bus.read(0x8000), 0x5A);
    // Echo RAM mirrors work RAM.
    cpu.bus.write(0xC123, 0x77);
    assert_eq!(cpu.bus.read(0xE123), 0x77);
    // Prohibited region reads 0xFF.
    assert_eq!(cpu.bus.read(0xFEA0), 0xFF);
}

/// A core with the LCD and timer off, so no interrupt source runs while
/// a snapshot is taken.
fn quiet_cpu(program: &[u8]) -> CPU {
    let mut cpu = CPU::default();
    cpu.bus.load_cartridge(flat_cart(program)).unwrap();
    cpu.pc = 0x0100;
    cpu.sp = 0xFFFE;
    cpu
}

#[test]
fn save_restore_round_trip() {
    // LD A,0x42; LD B,0xFF; ADD A,B; then spin: NOP; JR -3
    let program = [0x3E, 0x42, 0x06, 0xFF, 0x80, 0x00, 0x18, 0xFD];
    let mut cpu = quiet_cpu(&program);
    for _ in 0..40 {
        cpu.step();
    }
    cpu.bus.write(0xC123, 0x9A); // work RAM
    cpu.bus.write(0x8010, 0x5C); // VRAM
    cpu.bus.write(0xFF85, 0x77); // high RAM
    let snap1 = cpu.create_save_file();

    let mut fresh = quiet_cpu(&program);
    fresh.load_save_file(snap1.clone()).unwrap();
    assert_eq!(fresh.registers.a, cpu.registers.a);
    assert_eq!(fresh.registers.f, cpu.registers.f);
    assert_eq!(fresh.pc, cpu.pc);
    assert_eq!(fresh.sp, cpu.sp);
    assert_eq!(fresh.bus.read(0xC123), 0x9A);
    assert_eq!(fresh.bus.read(0x8010), 0x5C);
    assert_eq!(fresh.bus.read(0xFF85), 0x77);

    // Snapshot of the restored core is byte-identical.
    let snap2 = fresh.create_save_file();
    assert_eq!(snap1, snap2);
}

#[test]
fn restore_redrives_mbc_registers() {
    let mut rom = vec![0u8; 0x100000];
    rom[0x147] = 0x01;
    rom[0x149] = 0x00;
    rom[0x4000] = 0xA1;
    rom[0x80000] = 0xB2;
    let mut cpu = CPU::default();
    cpu.bus.load_cartridge(rom.clone()).unwrap();
    cpu.bus.write(0x2000, 0x20); // select bank 0x20
    let snap = cpu.create_save_file();

    let mut fresh = CPU::default();
    fresh.bus.load_cartridge(rom).unwrap();
    fresh.load_save_file(snap).unwrap();
    assert_eq!(fresh.bus.read(0x4000), 0xB2);
}

#[test]
fn restore_refuses_malformed_files() {
    let program = [0x00, 0x18, 0xFE];
    let mut cpu = quiet_cpu(&program);
    cpu.bus.write(0xC000, 0x42);
    let good = cpu.create_save_file();

    // Missing signature.
    let mut truncated = good.clone();
    truncated.truncate(good.len() - 2);
    let before_a = cpu.registers.a;
    assert_eq!(
        cpu.load_save_file(truncated),
        Err(RestoreError::MissingSignature)
    );
    // The core is untouched on refusal.
    assert_eq!(cpu.registers.a, before_a);
    assert_eq!(cpu.bus.read(0xC000), 0x42);

    // A block length running past the file.
    let mut overflowing = good.clone();
    let first_block = good.len() - 8;
    let start = u32::from_le_bytes([
        good[first_block],
        good[first_block + 1],
        good[first_block + 2],
        good[first_block + 3],
    ]) as usize;
    overflowing[start + 4] = 0xFF;
    overflowing[start + 5] = 0xFF;
    assert_eq!(
        cpu.load_save_file(overflowing),
        Err(RestoreError::BlockOverflow)
    );

    // A valid file still restores after the refusals.
    assert!(cpu.load_save_file(good).is_ok());
}

#[test]
fn restore_refuses_misaligned_mbc_block() {
    let mut rom = vec![0u8; 0x100000];
    rom[0x147] = 0x01;
    rom[0x149] = 0x00;
    let mut cpu = CPU::default();
    cpu.bus.load_cartridge(rom).unwrap();
    let good = cpu.create_save_file();
    // Find the MBC block: walk blocks from the trailing offset.
    let n = good.len();
    let mut ptr = u32::from_le_bytes([good[n - 8], good[n - 7], good[n - 6], good[n - 5]]) as usize;
    let mut bad = good.clone();
    loop {
        let tag = &good[ptr..ptr + 4];
        let len =
            u32::from_le_bytes([good[ptr + 4], good[ptr + 5], good[ptr + 6], good[ptr + 7]])
                as usize;
        if tag == b"MBC " {
            // Shrink the payload length by one: no longer a multiple of 3.
            let shorter = (len - 1) as u32;
            bad[ptr + 4..ptr + 8].copy_from_slice(&shorter.to_le_bytes());
            // Keep the chain intact by turning the leftover byte plus the
            // following END block into the new tail: simplest is to rebuild
            // the file as buffers + this block only; instead just check the
            // error on the truncated-length file, whose chain now misreads.
            break;
        }
        if tag == b"END " {
            panic!("expected an MBC block in an MBC1 save state");
        }
        ptr += 8 + len;
    }
    assert_eq!(cpu.load_save_file(bad), Err(RestoreError::MbcMisaligned));
}
