use neso::apu::{Apu, FrameCounterMode, LengthCounter, Noise};
use neso::cartridge::{Cartridge, CartridgeError};
use neso::controller::Controller;
use neso::cpu::{adc, compare, sbc, shift, Registers, CARRY_MASK, NEGATIVE_MASK, OVERFLOW_MASK, ZERO_MASK};
use neso::mapper::{from_cartridge, Mapper, UnsupportedMapper, Variant};
use neso::ppu::{MirroringMode, Ppu};

fn header(prg_banks: u8, chr_banks: u8, flags_6: u8, flags_7: u8) -> Vec<u8> {
    let mut b = vec![0x4E, 0x45, 0x53, 0x1A, prg_banks, chr_banks, flags_6, flags_7];
    b.extend_from_slice(&[0; 8]);
    b
}

fn rom(prg_banks: u8, chr_banks: u8, flags_6: u8, flags_7: u8) -> Vec<u8> {
    let mut b = header(prg_banks, chr_banks, flags_6, flags_7);
    for i in 0..(prg_banks as usize * 0x4000) {
        b.push((i % 251) as u8);
    }
    for i in 0..(chr_banks as usize * 0x2000) {
        b.push((i % 241) as u8);
    }
    b
}

#[test]
fn controller_strobe_protocol() {
    let mut c = Controller::new();
    c.press_button(0);
    c.press_button(3);
    c.write_strobe(true);
    c.write_strobe(false);
    let bits: Vec<u8> = (0..8).map(|_| c.read_value()).collect();
    assert_eq!(bits, vec![1, 0, 0, 1, 0, 0, 0, 0]);
    assert_eq!(c.read_value(), 1);
    assert_eq!(c.read_value(), 1);
}

#[test]
fn controller_strobe_high_repeats_a() {
    let mut c = Controller::new();
    c.press_button(1);
    c.write_strobe(true);
    assert_eq!(c.read_value(), 0);
    assert_eq!(c.read_value(), 0);
    c.press_button(0);
    assert_eq!(c.read_value(), 1);
    c.release_button(0);
    assert_eq!(c.read_value(), 0);
    assert_eq!(c.value, 0x02);
}

#[test]
fn status_flags_and_nz() {
    let mut r = Registers::new();
    assert_eq!((r.sp, r.p), (0xFD, 0x24));
    r.set_status_flag(CARRY_MASK, true);
    assert!(r.get_status_flag(CARRY_MASK));
    r.set_status_flag(CARRY_MASK, false);
    assert!(!r.get_status_flag(CARRY_MASK));
    r.update_nz_flags(0);
    assert!(r.get_status_flag(ZERO_MASK));
    assert!(!r.get_status_flag(NEGATIVE_MASK));
    r.update_nz_flags(0x80);
    assert!(!r.get_status_flag(ZERO_MASK));
    assert!(r.get_status_flag(NEGATIVE_MASK));
}

#[test]
fn adc_sets_overflow_and_carry() {
    let mut r = Registers::new();
    r.p = 0;
    r.a = 0x50;
    let o = adc(r, 0x50);
    assert_eq!(o.a, 0xA0);
    assert_eq!(o.p & OVERFLOW_MASK, OVERFLOW_MASK);
    assert_eq!(o.p & CARRY_MASK, 0);
    assert_eq!(o.p & NEGATIVE_MASK, NEGATIVE_MASK);
    r.a = 0xFF;
    let o = adc(r, 0x01);
    assert_eq!(o.a, 0x00);
    assert_eq!(o.p & CARRY_MASK, CARRY_MASK);
    assert_eq!(o.p & ZERO_MASK, ZERO_MASK);
    assert_eq!(o.p & OVERFLOW_MASK, 0);
}

#[test]
fn sbc_borrows() {
    let mut r = Registers::new();
    r.p = CARRY_MASK;
    r.a = 0x50;
    let o = sbc(r, 0xF0);
    assert_eq!(o.a, 0x60);
    assert_eq!(o.p & CARRY_MASK, 0);
    r.a = 0x50;
    let o = sbc(r, 0x10);
    assert_eq!(o.a, 0x40);
    assert_eq!(o.p & CARRY_MASK, CARRY_MASK);
    r.p = 0;
    r.a = 0x00;
    let o = sbc(r, 0x00);
    assert_eq!(o.a, 0xFF);
    assert_eq!(o.p & CARRY_MASK, 0);
}

#[test]
fn compare_and_shift() {
    let r = Registers::new();
    let o = compare(r, 0x10, 0x10);
    assert_eq!(o.p & (CARRY_MASK | ZERO_MASK), CARRY_MASK | ZERO_MASK);
    let o = compare(r, 0x10, 0x20);
    assert_eq!(o.p & CARRY_MASK, 0);
    assert_eq!(o.p & NEGATIVE_MASK, NEGATIVE_MASK);
    let mut c = Registers::new();
    c.p = CARRY_MASK;
    let (o, v) = shift(c, 0x81, true, true);
    assert_eq!(v, 0x03);
    assert_eq!(o.p & CARRY_MASK, CARRY_MASK);
    let (o, v) = shift(c, 0x01, false, true);
    assert_eq!(v, 0x80);
    assert_eq!(o.p & CARRY_MASK, CARRY_MASK);
    let (o, v) = shift(c, 0x02, false, false);
    assert_eq!(v, 0x01);
    assert_eq!(o.p & CARRY_MASK, 0);
}

#[test]
fn scroll_writes_follow_loopy_rules() {
    let mut r = neso::ppu::Registers::new();
    r.write_ppu_scroll(0x7D);
    assert_eq!(r.t & 0x1F, 0x0F);
    assert_eq!(r.x, 0x05);
    assert_eq!(r.w, 1);
    r.write_ppu_scroll(0x5E);
    assert_eq!(r.t, 0x616F);
    assert_eq!(r.w, 0);
    r.write_ppu_addr(0x3D);
    assert_eq!(r.t, 0x3D6F);
    r.write_ppu_addr(0xF0);
    assert_eq!(r.t, 0x3DF0);
    assert_eq!(r.v, 0x3DF0);
    assert_eq!(r.bus_address, 0x3DF0);
    assert_eq!(r.w, 0);
}

#[test]
fn ctrl_write_sets_nametable_bits() {
    let mut r = neso::ppu::Registers::new();
    r.write_ppu_ctrl(0xA7);
    assert_eq!(r.t & 0x0C00, 0x0C00);
    assert_eq!(r.vram_address_increment, 32);
    assert_eq!(r.sprite_size, (8, 16));
    assert!(r.nmi_enabled);
    assert_eq!(r.nametable_address, 0x2C00);
}

#[test]
fn scroll_increments_wrap() {
    let mut r = neso::ppu::Registers::new();
    r.v = 0x001F;
    r.increment_scroll_x();
    assert_eq!(r.v, 0x0400);
    r.v = 0x7000 | (29 << 5);
    r.increment_scroll_y();
    assert_eq!(r.v, 0x0800);
    r.v = 0x7000 | (31 << 5);
    r.increment_scroll_y();
    assert_eq!(r.v, 0x0000);
    r.v = 0x1000;
    r.increment_scroll_y();
    assert_eq!(r.v, 0x2000);
}

#[test]
fn status_read_clears_vblank_and_toggle() {
    let mut r = neso::ppu::Registers::new();
    r.v_blank_started = true;
    r.w = 1;
    r.last_written_byte = 0x1F;
    let s = r.read_ppu_status();
    assert_eq!(s, 0x9F);
    assert_eq!(r.w, 0);
    assert!(!r.v_blank_started);
    assert_eq!(r.read_ppu_status() & 0x80, 0);
}

fn board(flags_6: u8) -> Mapper {
    let c = Cartridge::from_buffer(&rom(1, 1, flags_6, 0)).unwrap();
    from_cartridge(c).unwrap()
}

#[test]
fn palette_aliases_read_alike() {
    let mut m = board(0);
    let mut p = Ppu::new();
    p.write_byte(&mut m, 0x3F10, 0x2A);
    assert_eq!(p.read_byte(&m, 0x3F00), 0x2A);
    p.write_byte(&mut m, 0x3F04, 0x11);
    assert_eq!(p.read_byte(&m, 0x3F14), 0x11);
    assert_eq!(p.read_byte(&m, 0x3F18), p.read_byte(&m, 0x3F08));
    assert_eq!(p.read_byte(&m, 0x3F1C), p.read_byte(&m, 0x3F0C));
}

#[test]
fn nametable_mirroring_classes() {
    let mut h = board(0);
    let mut p = Ppu::new();
    p.write_byte(&mut h, 0x2005, 0x77);
    assert_eq!(p.read_byte(&h, 0x2405), 0x77);
    assert_eq!(p.read_byte(&h, 0x3005), 0x77);
    assert_eq!(p.read_byte(&h, 0x2805), 0x00);
    let mut v = board(1);
    let mut q = Ppu::new();
    q.write_byte(&mut v, 0x2C10, 0x33);
    assert_eq!(q.read_byte(&v, 0x2410), 0x33);
    assert_eq!(q.read_byte(&v, 0x2010), 0x00);
}

#[test]
fn ppudata_reads_are_buffered() {
    let mut m = board(0);
    let mut p = Ppu::new();
    p.write_register(&mut m, 0x2000, 0);
    p.write_register(&mut m, 0x2006, 0x20);
    p.write_register(&mut m, 0x2006, 0x00);
    p.write_register(&mut m, 0x2007, 0x12);
    p.write_register(&mut m, 0x2007, 0x34);
    p.write_register(&mut m, 0x2006, 0x20);
    p.write_register(&mut m, 0x2006, 0x00);
    assert_eq!(p.read_register(&m, 0x2007), 0x00);
    assert_eq!(p.read_register(&m, 0x2007), 0x12);
    assert_eq!(p.read_register(&m, 0x2007), 0x34);
}

#[test]
fn oam_dma_copies_from_oam_address() {
    let mut p = Ppu::new();
    p.r.oam_addr = 0x10;
    let mut page = [0u8; 256];
    for k in 0..256 {
        page[k] = k as u8;
    }
    p.oam_dma(&page);
    assert_eq!(p.primary_oam[0x10], 0);
    assert_eq!(p.primary_oam[0xFF], 0xEF);
    assert_eq!(p.primary_oam[0x00], 0xF0);
    assert_eq!(p.r.oam_addr, 0x10);
}

#[test]
fn length_counter_and_status() {
    let mut l = LengthCounter::new();
    l.reload(1);
    assert_eq!(l.val, 254);
    l.step();
    assert_eq!(l.val, 254);
    l.enabled = true;
    l.step();
    assert_eq!(l.val, 253);
    let mut a = Apu::new();
    a.write_register(0x4015, 0x01);
    a.write_register(0x4003, 0x08);
    assert_eq!(a.pulse1.length_counter.val, 254);
    assert_eq!(a.read_register(0x4015) & 0x01, 0x01);
    a.write_register(0x4015, 0x00);
    assert_eq!(a.pulse1.length_counter.val, 0);
    assert_eq!(a.read_register(0x4015), 0);
}

#[test]
fn status_read_acknowledges_frame_irq() {
    let mut a = Apu::new();
    a.irq_pending = true;
    assert_eq!(a.read_register(0x4015) & 0x40, 0x40);
    assert_eq!(a.read_register(0x4015) & 0x40, 0x00);
    assert!(!a.irq_pending);
}

#[test]
fn four_step_sequence_raises_frame_irq() {
    let mut a = Apu::new();
    a.write_register(0x4017, 0x00);
    assert_eq!(a.frame_counter_mode, FrameCounterMode::FourStep);
    let mut raised = 0u64;
    let mut at = 0u64;
    for i in 0..40000u64 {
        let ev = a.step();
        if ev.frame_irq {
            raised += 1;
            if at == 0 {
                at = i + 1;
            }
        }
    }
    assert_eq!(raised, 1);
    assert_eq!(at, 7459 + 7456 + 7458 + 7458);
    assert!(a.irq_pending);
    a.write_register(0x4017, 0x40);
    assert!(!a.irq_pending);
}

#[test]
fn envelope_decays_then_holds() {
    let mut a = Apu::new();
    a.write_register(0x400C, 0x00);
    a.write_register(0x400F, 0x00);
    let mut e = a.noise.envelope;
    e.step();
    assert_eq!(e.volume, 15);
    let mut last = 15;
    for _ in 0..20 {
        e.step();
        assert!(e.volume <= last);
        last = e.volume;
    }
    assert_eq!(e.volume, 0);
    e.looped = true;
    e.step();
    assert_eq!(e.volume, 15);
}

#[test]
fn noise_shift_register_feedback() {
    let mut n = Noise::new();
    n.step();
    assert_eq!(n.shift_register, 0x4000);
    n.mode = true;
    n.shift_register = 0x0041;
    n.timer_val = 0;
    n.step();
    assert_eq!(n.shift_register, 0x0020);
}

#[test]
fn cartridge_errors() {
    let mut bad = rom(1, 1, 0, 0);
    bad[0] = b'X';
    assert_eq!(Cartridge::from_buffer(&bad).err(), Some(CartridgeError::BadMagic));
    let short = header(2, 1, 0, 0);
    assert_eq!(Cartridge::from_buffer(&short).err(), Some(CartridgeError::Truncated));
    let none = rom(0, 1, 0, 0);
    assert_eq!(Cartridge::from_buffer(&none).err(), Some(CartridgeError::NoProgramRom));
    assert_eq!(Cartridge::from_buffer(&[0x4E, 0x45]).err(), Some(CartridgeError::BadMagic));
}

#[test]
fn cartridge_header_fields() {
    let mut b = header(1, 0, 0x16 | 0x30, 0x40);
    b.extend(vec![0xEE; 512]);
    for i in 0..0x4000 {
        b.push((i % 7) as u8);
    }
    let c = Cartridge::from_buffer(&b).unwrap();
    assert_eq!(c.mapper, 0x43);
    assert!(c.has_battery);
    assert!(c.is_chr_ram);
    assert_eq!(c.chr_rom_len(), 0x2000);
    assert_eq!(c.prg_ram_len(), 0x4000);
    assert_eq!(c.read_prg_rom(0), 0);
    assert_eq!(c.read_prg_rom(8), 1);
    assert_eq!(c.mirroring_mode, MirroringMode::Horizontal);
    let mut d = header(1, 1, 0x09, 0);
    d[12] = 1;
    d.extend(vec![0; 0x6000]);
    let c = Cartridge::from_buffer(&d).unwrap();
    assert_eq!(c.mirroring_mode, MirroringMode::FourScreen);
    assert!(!c.is_chr_ram);
    let mut c2 = Cartridge::from_buffer(&rom(1, 1, 0, 0)).unwrap();
    let before = c2.read_chr_rom(5);
    c2.write_chr_rom(5, before.wrapping_add(1));
    assert_eq!(c2.read_chr_rom(5), before);
}

#[test]
fn unsupported_mapper_is_refused() {
    let c = Cartridge::from_buffer(&rom(1, 1, 0x50, 0)).unwrap();
    assert_eq!(from_cartridge(c).err(), Some(UnsupportedMapper { mapper: 5 }));
}

#[test]
fn uxrom_switches_low_bank() {
    let c = Cartridge::from_buffer(&rom(4, 1, 0x20, 0)).unwrap();
    let mut m = from_cartridge(c).unwrap();
    match &m {
        Mapper::Uxrom(u) => assert_eq!(u.variant, Variant::UNROM),
        _ => panic!("expected UxROM"),
    }
    let fixed = m.read_byte(0xC000);
    assert_eq!(fixed, ((3 * 0x4000) % 251) as u8);
    m.write_byte(0x8000, 2);
    assert_eq!(m.read_byte(0x8000), ((2 * 0x4000) % 251) as u8);
    assert_eq!(m.read_byte(0xC000), fixed);
}

#[test]
fn mmc1_loads_after_five_writes() {
    let c = Cartridge::from_buffer(&rom(4, 2, 0x10, 0)).unwrap();
    let mut m = from_cartridge(c).unwrap();
    // control = 0b00011: horizontal mirroring
    for bit in [1u8, 1, 0, 0, 0] {
        m.write_byte(0x8000, bit);
    }
    assert_eq!(m.mirroring_mode(), MirroringMode::Horizontal);
    for bit in [0u8, 1, 0, 0, 0] {
        m.write_byte(0x8000, bit);
    }
    assert_eq!(m.mirroring_mode(), MirroringMode::Vertical);
    m.write_byte(0x8000, 0x80);
    match &m {
        Mapper::Mmc1(x) => assert_eq!(x.r.sr, 0x10),
        _ => panic!("expected MMC1"),
    }
}

#[test]
fn mmc3_bank_registers_and_irq_counter() {
    let c = Cartridge::from_buffer(&rom(4, 2, 0x40, 0)).unwrap();
    let mut m = from_cartridge(c).unwrap();
    m.write_byte(0x8000, 0x06);
    m.write_byte(0x8001, 0x03);
    assert_eq!(m.read_byte(0x8000), ((3 * 0x2000) % 251) as u8);
    assert_eq!(m.read_byte(0xE000), ((7 * 0x2000) % 251) as u8);
    m.write_byte(0xC000, 2);
    m.write_byte(0xC001, 0);
    m.write_byte(0xE001, 0);
    assert!(!m.step(260, 10, true));
    assert!(m.step(260, 11, true));
    assert!(!m.step(100, 12, true));
}

#[test]
fn cnrom_switches_chr() {
    let c = Cartridge::from_buffer(&rom(2, 4, 0x30, 0)).unwrap();
    let mut m = from_cartridge(c).unwrap();
    m.write_byte(0x8000, 2);
    assert_eq!(m.read_byte(0x0001), ((2 * 0x2000 + 1) % 241) as u8);
}

#[test]
fn five_step_write_ticks_at_once() {
    let mut a = Apu::new();
    a.write_register(0x4015, 0x01);
    a.write_register(0x4000, 0x00);
    a.write_register(0x4003, 0x08);
    assert_eq!(a.pulse1.length_counter.val, 254);
    assert!(a.pulse1.envelope.reset);
    a.write_register(0x4017, 0x80);
    assert_eq!(a.frame_counter_mode, FrameCounterMode::FiveStep);
    assert_eq!(a.frame_counter_phase, 0);
    assert!(!a.pulse1.envelope.reset);
    assert_eq!(a.pulse1.envelope.volume, 15);
    assert_eq!(a.pulse1.length_counter.val, 253);
    a.write_register(0x4017, 0x00);
    assert_eq!(a.pulse1.length_counter.val, 253);
}

#[test]
fn sprite_evaluation_takes_first_eight() {
    let mut p = Ppu::new();
    p.scanline = 9;
    for i in 0..10usize {
        p.primary_oam[i * 4] = 5;
        p.primary_oam[i * 4 + 1] = i as u8;
    }
    p.primary_oam[10 * 4] = 200;
    p.evaluate_sprites();
    for k in 0..8usize {
        assert_eq!(p.secondary_oam[k * 4], 5);
        assert_eq!(p.secondary_oam[k * 4 + 1], k as u8);
    }
    assert!(p.is_sprite_0[0]);
    assert!(!p.is_sprite_0[1]);
    assert!(p.r.sprite_overflow);
    let mut q = Ppu::new();
    q.scanline = 9;
    q.primary_oam[12] = 8;
    q.evaluate_sprites();
    assert_eq!(q.secondary_oam[0], 8);
    assert!(!q.is_sprite_0[0]);
    assert_eq!(q.secondary_oam[4], 0xFF);
    assert!(!q.r.sprite_overflow);
}

#[test]
fn prg_ram_reads_wrap() {
    let mut c = Cartridge::from_buffer(&rom(1, 1, 0, 0)).unwrap();
    c.write_prg_ram(3, 0x44);
    let len = c.prg_ram_len();
    assert_eq!(c.read_prg_ram(3 + len), 0x44);
}
