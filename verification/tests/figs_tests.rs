use std::collections::VecDeque;

use figs::bus::Bus;
use figs::cartridge::{parse_rom_header, Cartridge, CartridgeError, Mbc, Mbc1, NoMbc, NINTENDO_LOGO};
use figs::cpu::Cpu;
use figs::dma::{Dma, DmaState, OP_DURATION};
use figs::interrupts::{IntFlags, Interrupt, IrqHolder};
use figs::joypad::{Joypad, Key};
use figs::pixel::Pixel;
use figs::ppu::{Ppu, SCREEN_PIXELS};
use figs::registers::{Registers, FLAG_C, FLAG_H, FLAG_N, FLAG_Z};
use figs::serial::{Sc, Serial};
use figs::timer::{FallingEdgeDetector, Tac, Timer};

/// The header checksum over 0x134..0x14D, as the boot ROM computes it.
fn header_checksum(rom: &[u8]) -> u8 {
    let mut checksum = 0u8;
    for byte in &rom[0x134..0x14D] {
        checksum = checksum.wrapping_sub(*byte).wrapping_sub(1);
    }
    checksum
}

/// A 32 KiB ROM image with a valid header, the given title and cartridge type, and
/// `code` at 0x150 (the entry point at 0x100 jumps there).
fn make_rom(title: &[u8], cart_type: u8, code: &[u8]) -> Vec<u8> {
    let mut rom = vec![0u8; 0x8000];
    rom[0x100] = 0x00;
    rom[0x101] = 0xC3;
    rom[0x102] = 0x50;
    rom[0x103] = 0x01;
    rom[0x104..0x134].copy_from_slice(&NINTENDO_LOGO);
    rom[0x134..0x134 + title.len()].copy_from_slice(title);
    rom[0x147] = cart_type;
    rom[0x148] = 0x00;
    rom[0x149] = 0x00;
    rom[0x14D] = header_checksum(&rom);
    rom[0x150..0x150 + code.len()].copy_from_slice(code);
    rom
}

fn make_bus(rom: Vec<u8>) -> Bus {
    let cart = Cartridge::new(rom).unwrap();
    Bus::new(cart, Ppu::new(), IrqHolder::new(), Timer::new(), Serial::new(), false, Joypad::new())
}

fn make_cpu(code: &[u8]) -> Cpu {
    let bus = make_bus(make_rom(b"TEST", 0x00, code));
    Cpu::new(bus, VecDeque::new())
}

// ---- registers ----

#[test]
fn registers_boot_state() {
    let r = Registers::new(0x42);
    assert_eq!((r.a, r.f, r.b, r.c, r.d, r.e, r.h, r.l), (0x01, 0xB0, 0x00, 0x13, 0x00, 0xD8, 0x01, 0x4D));
    assert_eq!((r.pc, r.sp), (0x0100, 0xFFFE));
    let r = Registers::new(0);
    assert_eq!(r.f, FLAG_Z);
}

#[test]
fn register_pairs_round_trip() {
    let mut r = Registers::new(1);
    r.set_bc(0x1234);
    assert_eq!((r.b, r.c, r.bc()), (0x12, 0x34, 0x1234));
    r.set_de(0xBEEF);
    assert_eq!((r.d, r.e, r.de()), (0xBE, 0xEF, 0xBEEF));
    r.set_hl(0xC000);
    assert_eq!((r.h, r.l, r.hl()), (0xC0, 0x00, 0xC000));
}

#[test]
fn af_keeps_low_nibble_of_f_clear() {
    let mut r = Registers::new(1);
    r.set_af(0x12FF);
    assert_eq!(r.a, 0x12);
    assert_eq!(r.f, 0xF0);
    assert_eq!(r.af(), 0x12F0);
}

#[test]
fn flag_setters_touch_one_bit() {
    let mut r = Registers::new(0);
    r.f = 0;
    r.set_flag_z(true);
    assert_eq!(r.f, FLAG_Z);
    r.set_flag_n(true);
    r.set_flag_h(true);
    r.set_flag_c(true);
    assert_eq!(r.f, 0xF0);
    r.set_flag_n(false);
    assert_eq!(r.f, FLAG_Z | FLAG_H | FLAG_C);
    r.set_flag_z(false);
    r.set_flag_c(false);
    assert_eq!(r.f, FLAG_H);
    assert_eq!(FLAG_N, 0x40);
}

// ---- cartridge ----

#[test]
fn header_parses_title_and_flags() {
    let rom = make_rom(b"POKEMON", 0x01, &[]);
    let header = parse_rom_header(&rom).unwrap();
    assert_eq!(header.title, "POKEMON");
    assert_eq!(header.header_flags.cartridge_type, 0x01);
    assert_eq!(header.header_flags.header_checksum, header_checksum(&rom));
}

#[test]
fn header_title_stops_before_cgb_flag() {
    let mut rom = make_rom(b"ABCDEFGHIJKLMNO", 0x00, &[]);
    rom[0x143] = 0x80;
    rom[0x14D] = header_checksum(&rom);
    assert_eq!(parse_rom_header(&rom).unwrap().title, "ABCDEFGHIJKLMNO");
    rom[0x143] = b'P';
    rom[0x14D] = header_checksum(&rom);
    assert_eq!(parse_rom_header(&rom).unwrap().title, "ABCDEFGHIJKLMNOP");
}

#[test]
fn header_rejects_bad_logo() {
    let mut rom = make_rom(b"TEST", 0x00, &[]);
    rom[0x104] = 0x00;
    assert!(matches!(parse_rom_header(&rom), Err(CartridgeError::InvalidLogo)));
    assert!(matches!(Cartridge::new(rom), Err(CartridgeError::InvalidLogo)));
}

#[test]
fn header_rejects_non_ascii_title() {
    let mut rom = make_rom(b"TEST", 0x00, &[]);
    rom[0x135] = 0xC3;
    rom[0x14D] = header_checksum(&rom);
    assert!(matches!(parse_rom_header(&rom), Err(CartridgeError::InvalidTitle)));
}

#[test]
fn header_rejects_bad_checksum() {
    let mut rom = make_rom(b"TEST", 0x00, &[]);
    let good = rom[0x14D];
    rom[0x14D] = good.wrapping_add(1);
    match parse_rom_header(&rom) {
        Err(CartridgeError::ChecksumMismatch { computed, expected }) => {
            assert_eq!(computed, good);
            assert_eq!(expected, good.wrapping_add(1));
        }
        _ => panic!("expected a checksum mismatch"),
    }
}

#[test]
fn cartridge_rejects_unsupported_type() {
    let rom = make_rom(b"TEST", 0x13, &[]);
    assert!(matches!(Cartridge::new(rom), Err(CartridgeError::UnsupportedType(0x13))));
}

#[test]
fn cartridge_reads_rom() {
    let rom = make_rom(b"TEST", 0x00, &[0xAB, 0xCD]);
    let cart = Cartridge::new(rom).unwrap();
    assert_eq!(cart.title(), "TEST");
    assert_eq!(cart.header_flags().cartridge_type, 0x00);
    assert_eq!(cart.read(0x150), 0xAB);
    assert_eq!(cart.read(0x151), 0xCD);
    assert!(cart.can_read(0x7FFF));
    assert!(!cart.can_read(0xA000));
}

#[test]
fn no_mbc_ignores_rom_writes() {
    let mut m = NoMbc::new(vec![1, 2, 3, 4], false);
    m.write(0x0001, 0xFF);
    assert_eq!(m.read(0x0001), 2);
    assert!(m.can_write(0x0001));
    assert!(!m.can_write(0xA000));
}

fn banked_rom() -> Vec<u8> {
    // four 16 KiB banks, each filled with its own number
    let mut rom = vec![0u8; 4 * 0x4000];
    for bank in 0..4 {
        for b in &mut rom[bank * 0x4000..(bank + 1) * 0x4000] {
            *b = bank as u8;
        }
    }
    rom
}

#[test]
fn mbc1_switches_rom_banks() {
    // rom size flag 1: 64 KiB, four banks
    let mut m = Mbc1::new(banked_rom(), false, 1, 0);
    assert_eq!(m.read(0x0000), 0);
    assert_eq!(m.read(0x4000), 1);
    m.write(0x2000, 3);
    assert_eq!(m.read(0x4000), 3);
    assert_eq!(m.read(0x7FFF), 3);
    m.write(0x2000, 2);
    assert_eq!(m.read(0x4000), 2);
}

#[test]
fn mbc1_bank_zero_selects_bank_one() {
    let mut m = Mbc1::new(banked_rom(), false, 1, 0);
    m.write(0x2000, 3);
    m.write(0x2000, 0);
    assert_eq!(m.read(0x4000), 1);
}

#[test]
fn mbc1_bank_number_is_masked_to_rom_size() {
    let mut m = Mbc1::new(banked_rom(), false, 1, 0);
    // 0x07 has bits above the two that four banks need
    m.write(0x2000, 0x07);
    assert_eq!(m.read(0x4000), 3);
}

#[test]
fn mbc1_ram_is_refused_until_enabled() {
    let mut m = Mbc1::new(banked_rom(), true, 1, 0);
    assert!(!m.can_read(0xA000));
    assert!(!m.can_write(0xA000));
    m.write(0x0000, 0x0A);
    m.write(0x0000, 0x00);
    assert!(!m.can_write(0xA000));
    assert!(m.can_write(0x0000));
    assert!(m.can_write(0x6000));
}

// ---- interrupts ----

#[test]
fn irq_requests_set_their_bits() {
    let mut irq = IrqHolder::new();
    assert_eq!(irq.as_if(), 0);
    irq.request_vblank();
    irq.request_timer();
    assert_eq!(irq.as_if(), 0x05);
    irq.request_stat();
    irq.request_serial();
    irq.request_joypad();
    assert_eq!(irq.as_if(), 0x1F);
    assert_eq!(IrqHolder::from_bits(0x12).as_if(), 0x12);
    assert_eq!(IntFlags::new().into_bits(), 0);
    assert_eq!(IntFlags::from_bits(0x1B).into_bits(), 0x1B);
}

// ---- DMA ----

#[test]
fn dma_runs_for_its_duration() {
    let mut dma = Dma::new();
    assert!(!dma.is_working());
    assert!(matches!(dma.step(4), DmaState::Free));
    dma.assign_op(0xC100);
    assert!(dma.is_working());
    assert!(matches!(dma.step(OP_DURATION), DmaState::Working));
    assert!(matches!(dma.step(1), DmaState::Done { src_addr: 0xC100 }));
    assert!(!dma.is_working());
}

#[test]
fn dma_split_steps_add_up() {
    let mut dma = Dma::new();
    dma.assign_op(0xD000);
    assert!(matches!(dma.step(600), DmaState::Working));
    assert!(matches!(dma.step(40), DmaState::Working));
    assert!(matches!(dma.step(4), DmaState::Done { src_addr: 0xD000 }));
}

// ---- timer ----

#[test]
fn falling_edge_detector_reports_high_to_low() {
    let mut d = FallingEdgeDetector(false);
    assert!(!d.update(true));
    assert!(d.update(false));
    assert!(!d.update(false));
}

#[test]
fn tac_fields() {
    let tac = Tac::from_bits(0xFD);
    assert_eq!(tac.clock_select(), 1);
    assert!(tac.enable());
    assert_eq!(tac.clock_bit(), 3);
    assert_eq!(Tac::from_bits(0x00).clock_bit(), 9);
    assert_eq!(Tac::from_bits(0x02).clock_bit(), 5);
    assert_eq!(Tac::from_bits(0x03).clock_bit(), 7);
    assert_eq!(tac.into_bits(), 0xFD);
}

#[test]
fn div_counts_every_256_cycles() {
    let mut t = Timer::new();
    let mut irq = IrqHolder::new();
    assert_eq!(t.div(), 0);
    for _ in 0..255 {
        t.step(&mut irq);
    }
    assert_eq!(t.div(), 0);
    t.step(&mut irq);
    assert_eq!(t.div(), 1);
    for _ in 0..512 {
        t.step(&mut irq);
    }
    assert_eq!(t.div(), 3);
    t.reset_div();
    assert_eq!(t.div(), 0);
}

#[test]
fn tima_overflow_reloads_tma_and_interrupts() {
    let mut t = Timer::new();
    let mut irq = IrqHolder::new();
    // enabled, clock bit 3: TIMA counts every 16 T-cycles
    t.set_tac(0x05);
    assert_eq!(t.tac(), 0xFD);
    t.set_tma(0x80);
    t.set_tima(0xFF);
    let mut cycles = 0;
    while t.tima() == 0xFF {
        t.step(&mut irq);
        cycles += 1;
    }
    assert_eq!(t.tima(), 0x00);
    assert_eq!(irq.as_if(), 0);
    for _ in 0..3 {
        t.step(&mut irq);
        assert_eq!(t.tima(), 0x00);
        assert_eq!(irq.as_if(), 0);
    }
    t.step(&mut irq);
    assert_eq!(t.tima(), 0x80);
    assert_eq!(t.tma(), 0x80);
    assert_eq!(irq.as_if(), 0x04);
    assert!(cycles <= 16);
}

#[test]
fn tima_write_cancels_pending_reload() {
    let mut t = Timer::new();
    let mut irq = IrqHolder::new();
    t.set_tac(0x05);
    t.set_tma(0x80);
    t.set_tima(0xFF);
    while t.tima() == 0xFF {
        t.step(&mut irq);
    }
    t.set_tima(0x10);
    for _ in 0..8 {
        t.step(&mut irq);
    }
    assert_eq!(irq.as_if(), 0);
    assert!(t.tima() >= 0x10);
}

#[test]
fn timer_disabled_does_not_count() {
    let mut t = Timer::new();
    let mut irq = IrqHolder::new();
    t.set_tac(0x01);
    for _ in 0..1000 {
        t.step(&mut irq);
    }
    assert_eq!(t.tima(), 0);
}

// ---- serial ----

#[test]
fn sc_fields() {
    let mut sc = Sc::from_bits(0x81);
    assert!(sc.shift_clock());
    assert!(!sc.clock_speed());
    assert!(sc.transfer_start());
    sc.set_transfer_start(false);
    assert_eq!(sc.into_bits(), 0x01);
}

#[test]
fn serial_transfer_takes_4096_cycles() {
    let mut s = Serial::new();
    let mut irq = IrqHolder::new();
    assert_eq!(s.sc(), 0x7E);
    s.set_sb(0x42);
    assert_eq!(s.sb(), 0x42);
    s.set_sc(0x81);
    for _ in 0..4095 {
        s.step(&mut irq);
        assert_eq!(irq.as_if(), 0);
    }
    s.step(&mut irq);
    assert_eq!(irq.as_if(), 0x08);
    assert_eq!(s.sb(), 0xFF);
    assert_eq!(s.sc(), 0x7F);
}

#[test]
fn serial_shifts_one_bit_per_512_cycles() {
    let mut s = Serial::new();
    let mut irq = IrqHolder::new();
    s.set_sb(0x00);
    s.set_sc(0x81);
    for _ in 0..512 {
        s.step(&mut irq);
    }
    assert_eq!(s.sb(), 0x01);
    for _ in 0..512 {
        s.step(&mut irq);
    }
    assert_eq!(s.sb(), 0x03);
}

#[test]
fn serial_external_clock_never_completes() {
    let mut s = Serial::new();
    let mut irq = IrqHolder::new();
    s.set_sb(0x42);
    s.set_sc(0x80);
    for _ in 0..10000 {
        s.step(&mut irq);
    }
    assert_eq!(irq.as_if(), 0);
    assert_eq!(s.sb(), 0x42);
    assert_eq!(s.sc(), 0xFE);
}

// ---- joypad ----

#[test]
fn joypad_reports_selected_group() {
    let mut j = Joypad::new();
    let mut irq = IrqHolder::new();
    assert_eq!(j.status(), 0xCF);
    // select the d-pad (bit 4 set means that group is read here)
    j.set_status(0x1F);
    j.update(&[Key::Left, Key::A], &mut irq);
    assert_eq!(j.status(), 0x0D);
    assert_eq!(irq.as_if(), 0x10);
}

#[test]
fn joypad_buttons_group() {
    let mut j = Joypad::new();
    let mut irq = IrqHolder::new();
    j.set_status(0x2F);
    j.update(&[Key::Left, Key::A, Key::X], &mut irq);
    assert_eq!(j.status(), 0x06);
    assert_eq!(irq.as_if(), 0x10);
}

#[test]
fn joypad_both_or_neither_selected_releases_all() {
    let mut j = Joypad::new();
    let mut irq = IrqHolder::new();
    j.set_status(0x30);
    j.update(&[Key::Left], &mut irq);
    assert_eq!(j.status(), 0x3F);
    j.set_status(0x00);
    j.update(&[Key::A], &mut irq);
    assert_eq!(j.status(), 0x0F);
    assert_eq!(irq.as_if(), 0);
}

#[test]
fn joypad_held_key_interrupts_once() {
    let mut j = Joypad::new();
    let mut irq = IrqHolder::new();
    j.set_status(0x1F);
    j.update(&[Key::Up], &mut irq);
    assert_eq!(irq.as_if(), 0x10);
    let mut irq2 = IrqHolder::new();
    j.set_status(j.status() | 0x10);
    j.update(&[Key::Up], &mut irq2);
    assert_eq!(irq2.as_if(), 0);
}

// ---- pixels ----

#[test]
fn pixel_palette_and_colours() {
    assert_eq!(Pixel::from_bits(2), Pixel::Two);
    // BGP 0xE4: identity mapping
    assert_eq!(Pixel::from_bits(3).apply_palette(0xE4), Pixel::Three);
    // 0x1B reverses the shades
    assert_eq!(Pixel::from_bits(0).apply_palette(0x1B), Pixel::Three);
    assert_eq!(Pixel::from_bits(1).apply_palette(0x1B), Pixel::Two);
    assert_eq!(Pixel::Zero.to_bgra(), 0xFFFFFF);
    assert_eq!(Pixel::One.to_bgra(), 0xC0C0C0);
    assert_eq!(Pixel::Two.to_bgra(), 0x404040);
    assert_eq!(Pixel::Three.to_bgra(), 0x000000);
}

// ---- PPU ----

#[test]
fn ppu_power_on_state() {
    let p = Ppu::new();
    assert_eq!(p.lcdc(), 0x91);
    assert_eq!(p.bgp(), 0xFC);
    assert_eq!(p.obp0(), 0xFF);
    assert_eq!(p.obp1(), 0xFF);
    assert_eq!(p.ly(), 0);
    assert_eq!(p.framebuffer().len(), SCREEN_PIXELS);
    // mode 2 at power on: OAM is locked, VRAM is not
    assert!(p.vram().is_some());
    assert!(p.oam().is_none());
}

#[test]
fn ppu_lines_take_456_dots() {
    let mut p = Ppu::new();
    let mut q = VecDeque::new();
    for _ in 0..456 {
        assert!(p.can_step());
        p.step(&mut q);
    }
    assert_eq!(p.ly(), 1);
    for _ in 0..(143 * 456) {
        p.step(&mut q);
    }
    assert_eq!(p.ly(), 144);
    assert_eq!(p.stat() >> 6, 1);
    for _ in 0..(10 * 456) {
        p.step(&mut q);
    }
    assert_eq!(p.ly(), 0);
}

#[test]
fn ppu_lcd_off_unlocks_memory() {
    let mut p = Ppu::new();
    p.set_lcdc(0x11);
    assert!(p.vram().is_some());
    assert!(p.oam().is_some());
    assert_eq!(p.ly(), 0);
    assert_eq!(p.stat() >> 6, 0);
    p.write_oam(3, 0x77);
    p.write_vram(5, 0x66);
    assert_eq!(p.oam().unwrap()[3], 0x77);
    assert_eq!(p.vram().unwrap()[5], 0x66);
}

#[test]
fn ppu_registers_read_back() {
    let mut p = Ppu::new();
    p.set_scroll_x(1);
    p.set_scroll_y(2);
    p.set_wx(3);
    p.set_wy(4);
    p.set_bgp(5);
    p.set_obp0(6);
    p.set_obp1(7);
    p.set_lyc(8);
    assert_eq!(
        (p.scroll_x(), p.scroll_y(), p.wx(), p.wy(), p.bgp(), p.obp0(), p.obp1(), p.lyc()),
        (1, 2, 3, 4, 5, 6, 7, 8)
    );
}

#[test]
fn ppu_lyc_coincidence_in_stat() {
    let mut p = Ppu::new();
    p.set_lyc(0);
    assert_eq!(p.stat() & 0x20, 0x20);
    p.set_lyc(1);
    assert_eq!(p.stat() & 0x20, 0);
}

#[test]
fn ppu_take_frame_ready_clears() {
    let mut p = Ppu::new();
    let first = p.take_frame_ready();
    assert!(first);
    assert!(!p.take_frame_ready());
}

#[test]
fn ppu_stat_interrupt_on_lyc_match() {
    let mut p = Ppu::new();
    let mut q = VecDeque::new();
    p.set_lyc(2);
    p.set_stat(0x02);
    for _ in 0..(3 * 456) {
        p.step(&mut q);
    }
    assert!(q.contains(&Interrupt::Stat));
}

// ---- bus ----

#[test]
fn bus_wram_and_hram_read_back() {
    let mut bus = make_bus(make_rom(b"TEST", 0x00, &[]));
    assert!(!bus.can_read(0xC000));
    bus.write(0xC000, 0x12);
    bus.write(0xDFFF, 0x34);
    bus.write(0xFF80, 0x56);
    assert_eq!(bus.read(0xC000), 0x12);
    assert_eq!(bus.read(0xDFFF), 0x34);
    assert_eq!(bus.read(0xFF80), 0x56);
    assert!(!bus.can_read(0xC001));
}

#[test]
fn bus_registers_read_back() {
    let mut bus = make_bus(make_rom(b"TEST", 0x00, &[]));
    for (addr, value) in [
        (0xFF06u16, 0x11u8),
        (0xFF0F, 0x02),
        (0xFF42, 0x13),
        (0xFF43, 0x14),
        (0xFF45, 0x15),
        (0xFF47, 0x16),
        (0xFF48, 0x17),
        (0xFF49, 0x18),
        (0xFF4A, 0x19),
        (0xFF4B, 0x1A),
        (0xFFFF, 0x1B),
    ] {
        bus.write(addr, value);
        assert_eq!(bus.read(addr), value);
    }
}

#[test]
fn bus_unmapped_reads_ff() {
    let mut bus = make_bus(make_rom(b"TEST", 0x00, &[]));
    bus.write(0xFF7F, 0x12);
    assert_eq!(bus.read(0xFF7F), 0xFF);
    assert!(!bus.can_read(0xFF46));
}

#[test]
fn bus_dma_blocks_all_but_hram() {
    let mut bus = make_bus(make_rom(b"TEST", 0x00, &[]));
    bus.write(0xC000, 0x12);
    bus.write(0xFF80, 0x34);
    bus.write(0xFF46, 0xC0);
    assert!(bus.dma.is_working());
    assert_eq!(bus.read(0xC000), 0xFF);
    assert_eq!(bus.read(0x0150), 0xFF);
    bus.write(0xC000, 0x99);
    assert_eq!(bus.read(0xFF80), 0x34);
    bus.write(0xFF81, 0x78);
    assert_eq!(bus.read(0xFF81), 0x78);
}

#[test]
fn bus_gameboy_doctor_mode() {
    let cart = Cartridge::new(make_rom(b"TEST", 0x00, &[])).unwrap();
    let bus = Bus::new(cart, Ppu::new(), IrqHolder::new(), Timer::new(), Serial::new(), true, Joypad::new());
    assert!(bus.can_read(0xC123));
    assert_eq!(bus.read(0xC123), 0x00);
    assert_eq!(bus.read(0xFF44), 0x90);
}

// ---- CPU ----

#[test]
fn cpu_runs_a_small_program() {
    let code = [
        0x31, 0xFE, 0xFF, // ld sp, 0xFFFE
        0x3E, 0x42, // ld a, 0x42
        0xEA, 0x00, 0xC0, // ld (0xC000), a
        0x21, 0x00, 0xC0, // ld hl, 0xC000
        0x7E, // ld a, (hl)
        0x3C, // inc a
        0x18, 0xFE, // jr -2
    ];
    let mut cpu = make_cpu(&code);
    let t = cpu.trace().unwrap();
    assert_eq!(t.regs.pc, 0x0100);
    assert_eq!(t.pcmem, [0x00, 0xC3, 0x50, 0x01]);
    let cycles: Vec<u32> = (0..9).map(|_| cpu.try_step().unwrap()).collect();
    assert_eq!(cycles, vec![1, 4, 3, 2, 4, 3, 2, 1, 3]);
    let t = cpu.trace().unwrap();
    assert_eq!(t.regs.a, 0x43);
    assert_eq!(t.regs.hl(), 0xC000);
    assert_eq!(t.regs.sp, 0xFFFE);
    // inc: Z, N and H clear; C kept from the boot state
    let rom = make_rom(b"TEST", 0x00, &code);
    let boot_f = Registers::new(rom[0x14D]).f;
    assert_eq!(t.regs.f, boot_f & FLAG_C);
    assert_eq!(t.regs.pc, 0x015D);
}

#[test]
fn cpu_call_and_ret_use_the_stack() {
    let code = [
        0x31, 0x00, 0xD0, // ld sp, 0xD000
        0xCD, 0x60, 0x01, // call 0x0160
        0x00, // nop
    ];
    let mut full = code.to_vec();
    full.resize(0x10, 0x00);
    full.push(0xC9); // 0x0160: ret
    let mut cpu = make_cpu(&full);
    cpu.step();
    cpu.step();
    cpu.step();
    assert_eq!(cpu.step(), 6);
    let t = cpu.trace().unwrap();
    assert_eq!(t.regs.pc, 0x0160);
    assert_eq!(t.regs.sp, 0xCFFE);
    assert_eq!(cpu.step(), 4);
    let t = cpu.trace().unwrap();
    assert_eq!(t.regs.pc, 0x0156);
    assert_eq!(t.regs.sp, 0xD000);
}

#[test]
fn cpu_unknown_opcode_is_refused() {
    // 0xD3 is no instruction
    let mut cpu = make_cpu(&[0xD3]);
    cpu.step();
    cpu.step();
    assert_eq!(cpu.try_step(), None);
}

#[test]
fn cpu_uninitialised_read_is_refused() {
    let code = [
        0x21, 0x00, 0xC0, // ld hl, 0xC000
        0x7E, // ld a, (hl)
    ];
    let mut cpu = make_cpu(&code);
    cpu.step();
    cpu.step();
    cpu.step();
    assert_eq!(cpu.try_step(), None);
}

#[test]
fn cpu_dma_copies_into_oam() {
    let code = [
        0x3E, 0x11, // ld a, 0x11
        0xE0, 0x40, // ld (0xFF40), a: LCD off, so OAM is open
        0x3E, 0x01, // ld a, 0x01
        0xE0, 0x46, // ld (0xFF46), a: DMA from 0x0100
        0xFA, 0x05, 0xFE, // ld a, (0xFE05)
    ];
    let mut cpu = make_cpu(&code);
    for _ in 0..6 {
        cpu.step();
    }
    assert!(cpu.try_step_dma(OP_DURATION).is_some());
    assert!(cpu.try_step_dma(1).is_some());
    assert_eq!(cpu.step(), 4);
    // OAM byte 5 now holds ROM byte 0x105, the second byte of the logo
    assert_eq!(cpu.trace().unwrap().regs.a, 0xED);
    assert!(cpu.take_frame_ready());
    assert!(!cpu.take_frame_ready());
}

#[test]
fn cpu_timer_serial_and_joypad_steps() {
    let mut cpu = make_cpu(&[0x00]);
    for _ in 0..256 {
        cpu.step_timer();
        cpu.step_serial();
    }
    cpu.update_joypad(&[Key::Right]);
    assert!(cpu.can_step_ppu());
    cpu.step_ppu();
    assert_eq!(cpu.framebuffer().len(), SCREEN_PIXELS);
}

#[test]
fn bus_dma_start_runs_640_cycles() {
    let mut bus = make_bus(make_rom(b"TEST", 0x00, &[]));
    bus.write(0xFF46, 0xC1);
    assert!(matches!(bus.dma.step(OP_DURATION), DmaState::Working));
    assert!(matches!(bus.dma.step(1), DmaState::Done { src_addr: 0xC100 }));
    assert!(!bus.dma.is_working());
}

#[test]
fn bus_video_memory_locking() {
    let mut bus = make_bus(make_rom(b"TEST", 0x00, &[]));
    // at power-on the PPU is in mode 2: VRAM is open, OAM is locked
    bus.write(0x8000, 0x12);
    assert_eq!(bus.read(0x8000), 0x12);
    bus.write(0xFE00, 0x34);
    assert_eq!(bus.read(0xFE00), 0xFF);
    // with the LCD off both are open
    bus.write(0xFF40, 0x11);
    bus.write(0xFE00, 0x34);
    assert_eq!(bus.read(0xFE00), 0x34);
    assert_eq!(bus.read(0xFF40), 0x11);
}

#[test]
fn cpu_cp_sets_flags_like_sub() {
    let code = [
        0x3E, 0x10, // ld a, 0x10
        0xFE, 0x20, // cp 0x20
        0xD6, 0x20, // sub 0x20
    ];
    let mut cpu = make_cpu(&code);
    for _ in 0..4 {
        cpu.step();
    }
    let after_cp = cpu.trace().unwrap().regs;
    assert_eq!(after_cp.a, 0x10);
    assert_eq!(after_cp.f, FLAG_N | FLAG_C);
    cpu.step();
    let after_sub = cpu.trace().unwrap().regs;
    assert_eq!(after_sub.a, 0xF0);
    assert_eq!(after_sub.f, after_cp.f);
}

#[test]
fn cpu_inc_is_add_one_but_keeps_carry() {
    let code = [
        0xFE, 0x00, // cp 0x00: clears the carry flag
        0x3E, 0xFF, // ld a, 0xFF
        0x3C, // inc a
        0x3E, 0xFF, // ld a, 0xFF
        0xC6, 0x01, // add a, 0x01
    ];
    let mut cpu = make_cpu(&code);
    for _ in 0..5 {
        cpu.step();
    }
    let after_inc = cpu.trace().unwrap().regs;
    assert_eq!(after_inc.a, 0x00);
    assert_eq!(after_inc.f, FLAG_Z | FLAG_H);
    cpu.step();
    cpu.step();
    let after_add = cpu.trace().unwrap().regs;
    assert_eq!(after_add.a, 0x00);
    assert_eq!(after_add.f, after_inc.f | FLAG_C);
}

#[test]
fn dma_many_small_steps_add_up() {
    let mut dma = Dma::new();
    dma.assign_op(0xC200);
    for _ in 0..OP_DURATION {
        assert!(matches!(dma.step(1), DmaState::Working));
    }
    assert!(matches!(dma.step(1), DmaState::Done { src_addr: 0xC200 }));
    assert!(matches!(dma.step(1), DmaState::Free));
    assert!(matches!(dma.step(1000), DmaState::Free));
}

#[test]
fn tac_reads_with_upper_bits_set() {
    let mut t = Timer::new();
    assert_eq!(t.tac(), 0xF8);
    t.set_tac(0x00);
    assert_eq!(t.tac(), 0xF8);
    t.set_tac(0x07);
    assert_eq!(t.tac(), 0xFF);
}

#[test]
fn cpu_daa_gives_bcd_sums_and_differences() {
    let code = [
        0x3E, 0x45, // ld a, 0x45
        0xC6, 0x38, // add a, 0x38
        0x27, // daa: 45 + 38 = 83
        0x3E, 0x75, // ld a, 0x75
        0xC6, 0x48, // add a, 0x48
        0x27, // daa: 75 + 48 = 123
        0x3E, 0x83, // ld a, 0x83
        0xD6, 0x38, // sub 0x38
        0x27, // daa: 83 - 38 = 45
    ];
    let mut cpu = make_cpu(&code);
    for _ in 0..5 {
        cpu.step();
    }
    let r = cpu.trace().unwrap().regs;
    assert_eq!(r.a, 0x83);
    assert_eq!(r.f & (FLAG_C | FLAG_H | FLAG_N | FLAG_Z), 0);
    for _ in 0..3 {
        cpu.step();
    }
    let r = cpu.trace().unwrap().regs;
    assert_eq!(r.a, 0x23);
    assert_eq!(r.f, FLAG_C);
    for _ in 0..3 {
        cpu.step();
    }
    let r = cpu.trace().unwrap().regs;
    assert_eq!(r.a, 0x45);
    assert_eq!(r.f, FLAG_N);
}
