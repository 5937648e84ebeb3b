use neso::cartridge::CartridgeError;
use neso::cpu::{Interrupt, INTERRUPT_DISABLE_MASK};
use neso::mapper::UnsupportedMapper;
use neso::nes::{LoadError, Nes};

/// An NROM image whose program stores 0x42 at 0x0200 and then loops; the
/// NMI handler sits at 0x9000 and the IRQ handler at 0x9100.
fn program_rom() -> Vec<u8> {
    let mut b = vec![0x4E, 0x45, 0x53, 0x1A, 1, 1, 0, 0, 0, 0, 0, 0, 0, 0, 0, 0];
    let mut prg = vec![0xEAu8; 0x4000];
    let code = [0xA9, 0x42, 0x8D, 0x00, 0x02, 0x4C, 0x05, 0x80];
    prg[..code.len()].copy_from_slice(&code);
    prg[0x1000] = 0x40;
    prg[0x1100] = 0x40;
    prg[0x3FFA] = 0x00;
    prg[0x3FFB] = 0x90;
    prg[0x3FFC] = 0x00;
    prg[0x3FFD] = 0x80;
    prg[0x3FFE] = 0x00;
    prg[0x3FFF] = 0x91;
    b.extend(prg);
    b.extend(vec![0u8; 0x2000]);
    b
}

fn loaded() -> Nes {
    let mut nes = Nes::new();
    nes.load_rom(&program_rom()).unwrap();
    nes
}

#[test]
fn load_rom_reads_reset_vector() {
    let nes = loaded();
    assert_eq!(nes.cpu.r.pc, 0x8000);
    assert_eq!(nes.cpu.r.sp, 0xFD);
    assert_eq!(nes.cpu.r.p, 0x24);
}

#[test]
fn load_rom_errors_leave_machine_alone() {
    let mut nes = Nes::new();
    let mut bad = program_rom();
    bad[3] = 0;
    assert_eq!(nes.load_rom(&bad), Err(LoadError::Cartridge(CartridgeError::BadMagic)));
    let mut m5 = program_rom();
    m5[6] = 0x50;
    assert_eq!(nes.load_rom(&m5), Err(LoadError::Mapper(UnsupportedMapper { mapper: 5 })));
    assert!(nes.mapper.is_none());
}

#[test]
fn program_runs_over_a_frame() {
    let mut nes = loaded();
    nes.step_frame();
    assert_eq!(nes.ppu.frame, 1);
    assert_eq!(nes.cpu.ram[0x200], 0x42);
    assert_eq!(nes.cpu.r.a, 0x42);
    assert_eq!(nes.image_buffer().len(), 256 * 240 * 4);
    assert!(nes.audio_buffer_len() > 700 && nes.audio_buffer_len() < 760);
}

#[test]
fn nmi_enters_through_vector() {
    let mut nes = loaded();
    nes.step_cpu();
    nes.cpu.stall_cycle = 0;
    nes.cpu.trigger_interrupt(Interrupt::NMI);
    let pc = nes.cpu.r.pc;
    let sp = nes.cpu.r.sp;
    nes.step_cpu();
    assert_eq!(nes.cpu.r.pc, 0x9000);
    assert!(!nes.cpu.nmi_pending);
    assert_eq!(nes.cpu.r.sp, sp.wrapping_sub(3));
    assert_eq!(nes.cpu.ram[0x100 + sp as usize], (pc >> 8) as u8);
    assert_eq!(nes.cpu.ram[0x100 + sp as usize - 1], (pc & 0xFF) as u8);
    assert_eq!(nes.cpu.r.p & INTERRUPT_DISABLE_MASK, INTERRUPT_DISABLE_MASK);
    nes.cpu.stall_cycle = 0;
    nes.step_cpu();
    assert_eq!(nes.cpu.r.pc, pc);
}

#[test]
fn irq_is_masked_by_i() {
    let mut nes = loaded();
    nes.cpu.trigger_interrupt(Interrupt::IRQ);
    assert!(!nes.cpu.irq_pending);
    nes.cpu.r.p = 0x20;
    nes.cpu.trigger_interrupt(Interrupt::IRQ);
    assert!(nes.cpu.irq_pending);
    nes.step_cpu();
    assert_eq!(nes.cpu.r.pc, 0x9100);
}

#[test]
fn stack_wraps_within_page_one() {
    let mut nes = loaded();
    nes.cpu.r.sp = 0x00;
    nes.push_byte(0xAB);
    assert_eq!(nes.cpu.ram[0x100], 0xAB);
    assert_eq!(nes.cpu.r.sp, 0xFF);
    nes.push_byte(0xCD);
    assert_eq!(nes.cpu.ram[0x1FF], 0xCD);
    assert_eq!(nes.pop_byte(), 0xCD);
    assert_eq!(nes.pop_byte(), 0xAB);
    assert_eq!(nes.cpu.r.sp, 0x00);
}

#[test]
fn oam_dma_through_the_bus() {
    let mut nes = loaded();
    for k in 0..256u16 {
        nes.write_byte(0x0300 + k, k as u8 ^ 0x5A);
    }
    nes.write_byte(0x2003, 0x00);
    let stall = nes.cpu.stall_cycle;
    nes.write_byte(0x4014, 0x03);
    for i in 0..256usize {
        assert_eq!(nes.object_attribute_memory()[i], (i as u8) ^ 0x5A);
    }
    let extra = if nes.cpu.cycle % 2 == 1 { 514 } else { 513 };
    assert_eq!(nes.cpu.stall_cycle, stall + extra);
}

#[test]
fn ram_mirrors_every_2k() {
    let mut nes = loaded();
    nes.write_byte(0x0801, 0x99);
    assert_eq!(nes.read_byte(0x0001), 0x99);
    assert_eq!(nes.read_byte(0x1801), 0x99);
}

#[test]
fn controller_port_through_the_bus() {
    let mut nes = loaded();
    nes.press_button(0, 0);
    nes.press_button(0, 3);
    nes.write_byte(0x4016, 1);
    nes.write_byte(0x4016, 0);
    let bits: Vec<u8> = (0..8).map(|_| nes.read_byte(0x4016)).collect();
    assert_eq!(bits, vec![1, 0, 0, 1, 0, 0, 0, 0]);
    nes.release_button(0, 3);
    assert_eq!(nes.cpu.controller1.value, 0x01);
}

#[test]
fn reset_moves_stack_and_sets_i() {
    let mut nes = loaded();
    nes.step_frame();
    let sp = nes.cpu.r.sp;
    nes.reset();
    assert_eq!(nes.cpu.r.pc, 0x8000);
    assert_eq!(nes.cpu.r.sp, sp.wrapping_sub(3));
    assert_eq!(nes.cpu.r.p & INTERRUPT_DISABLE_MASK, INTERRUPT_DISABLE_MASK);
    assert_eq!(nes.ppu.frame, 0);
    nes.step_frame();
    assert_eq!(nes.ppu.frame, 1);
}

#[test]
fn vblank_nmi_when_enabled() {
    let mut nes = loaded();
    nes.write_byte(0x2000, 0x80);
    let mut entered = false;
    for _ in 0..40000 {
        nes.step();
        if nes.cpu.r.pc == 0x9000 {
            entered = true;
            break;
        }
    }
    assert!(entered);
    assert!(nes.ppu.r.v_blank_started);
    let status = nes.read_byte(0x2002);
    assert_eq!(status & 0x80, 0x80);
    assert_eq!(nes.read_byte(0x2002) & 0x80, 0);
}

#[test]
fn inspection_views() {
    let nes = loaded();
    assert_eq!(nes.palettes()[0], 0x09);
    assert!(!nes.tall_sprites_enabled());
    assert_eq!(nes.background_chr_bank(), 0);
    assert_eq!(nes.nametable_bank(1).len(), 0x400);
    assert_eq!(nes.chr_bank(7).len(), 0x400);
    assert_eq!(neso::ppu::color(0x30), 0x00FC_FCFC);
}

#[test]
fn battery_ram_save_and_load() {
    let mut image = program_rom();
    image[6] = 0x02;
    let mut nes = Nes::new();
    nes.load_rom(&image).unwrap();
    nes.write_byte(0x6000, 0x77);
    let blob = nes.save().unwrap();
    assert_eq!(blob.len(), 0x4000);
    assert_eq!(blob[0], 0x77);
    assert_eq!(nes.load(&[1, 2, 3]), Err(neso::cartridge::SaveError::WrongLength));
    assert_eq!(nes.read_byte(0x6000), 0x77);
    let mut other = blob.clone();
    other[1] = 0x55;
    assert_eq!(nes.load(&other), Ok(()));
    assert_eq!(nes.read_byte(0x6001), 0x55);
    let plain = loaded();
    assert!(plain.save().is_none());
}

#[test]
fn immediate_arithmetic_through_the_interpreter() {
    let mut image = program_rom();
    // SEC; LDA #$10; SBC #$20; ADC #$7F; CMP #$6F
    let code = [0x38, 0xA9, 0x10, 0xE9, 0x20, 0x69, 0x7F, 0xC9, 0x6F];
    image[16..16 + code.len()].copy_from_slice(&code);
    let mut nes = Nes::new();
    nes.load_rom(&image).unwrap();
    for _ in 0..5 {
        nes.cpu.stall_cycle = 0;
        nes.step_cpu();
    }
    assert_eq!(nes.cpu.r.a, 0x6F);
    assert_eq!(nes.cpu.r.p & neso::cpu::ZERO_MASK, neso::cpu::ZERO_MASK);
    assert_eq!(nes.cpu.r.p & neso::cpu::CARRY_MASK, neso::cpu::CARRY_MASK);
    assert_eq!(nes.cpu.r.pc, 0x8009);
}
