use dmg_ppu::PPU;

#[test]
fn reset_registers_visible() {
    let p = PPU::new();
    assert_eq!(p.read_byte(0xff44), 0);
    assert_eq!(p.read_byte(0xff40), 0);
}

#[test]
fn vram_round_trip() {
    let mut p = PPU::new();
    p.write_byte(0x8000, 0xab);
    assert_eq!(p.read_byte(0x8000), 0xab);
}

#[test]
fn vram_mask_boundaries() {
    let mut p = PPU::new();
    p.write_byte(0x8000, 0x11);
    p.write_byte(0x9fff, 0x22);
    p.write_byte(0x9abc, 0x33);
    assert_eq!(p.read_byte(0x8000), 0x11);
    assert_eq!(p.read_byte(0x9fff), 0x22);
    assert_eq!(p.read_byte(0x9abc), 0x33);
}

#[test]
fn write_idempotent() {
    let mut once = PPU::new();
    let mut twice = PPU::new();
    once.write_byte(0x8123, 0x5a);
    twice.write_byte(0x8123, 0x5a);
    twice.write_byte(0x8123, 0x5a);
    assert_eq!(once.read_byte(0x8123), twice.read_byte(0x8123));

    // A control write that flips the LCD-enable bit restarts the machine;
    // repeating it finds the bit already set and must change nothing more.
    once.write_byte(0xff40, 0x80);
    twice.write_byte(0xff40, 0x80);
    twice.write_byte(0xff40, 0x80);
    for addr in [0xff40u16, 0xff41, 0xff44] {
        assert_eq!(once.read_byte(addr), twice.read_byte(addr));
    }
    once.run(456);
    twice.run(456);
    assert_eq!(once.read_byte(0xff44), twice.read_byte(0xff44));
    assert_eq!(once.read_byte(0xff41), twice.read_byte(0xff41));
}

#[test]
fn scanline_advance() {
    // From reset the machine sits in horizontal blank with an empty
    // accumulator; 456 dot-clocks drain the whole budget of scanline 0's
    // remaining phases and of scanline 1's scan and transfer, ending in
    // horizontal blank of scanline 1.
    let mut p = PPU::new();
    p.run(456);
    assert_eq!(p.read_byte(0xff44), 1);
    assert_eq!(p.read_byte(0xff41) & 0x03, 0x00);

    // 204 dot-clocks cover exactly the horizontal blank at reset: the
    // machine enters OAM scan of scanline 1.
    let mut q = PPU::new();
    q.run(204);
    assert_eq!(q.read_byte(0xff44), 1);
    assert_eq!(q.read_byte(0xff41) & 0x03, 0x02);
}

#[test]
fn large_delta_crosses_many_phases() {
    // One call carrying three scanlines' worth of dot-clocks from a
    // freshly enabled LCD lands in OAM scan of scanline 3.
    let mut p = PPU::new();
    p.write_byte(0xff40, 0x80);
    p.run(3 * 456);
    assert_eq!(p.read_byte(0xff44), 3);
    assert_eq!(p.read_byte(0xff41) & 0x03, 0x02);
}

#[test]
fn pixel_transfer_blocks_vram() {
    let mut p = PPU::new();
    p.write_byte(0x8000, 0xab);
    p.write_byte(0xff40, 0x80);
    p.run(80);
    assert_eq!(p.read_byte(0xff41) & 0x03, 0x03);
    assert_eq!(p.read_byte(0x8000), 0xff);
    p.write_byte(0x8000, 0x55);
    p.run(172);
    assert_eq!(p.read_byte(0xff41) & 0x03, 0x00);
    assert_eq!(p.read_byte(0x8000), 0xab);
}

#[test]
fn ly_is_read_only() {
    let mut p = PPU::new();
    p.write_byte(0xff40, 0x80);
    p.run(3 * 456);
    assert_eq!(p.read_byte(0xff44), 3);
    p.write_byte(0xff44, 0x55);
    assert_eq!(p.read_byte(0xff44), 3);
}

#[test]
fn lcd_disable_resets() {
    let mut p = PPU::new();
    p.write_byte(0xff40, 0x80);
    p.run(5 * 456 + 100);
    assert_ne!(p.read_byte(0xff44), 0);
    p.write_byte(0xff40, 0x00);
    assert_eq!(p.read_byte(0xff44), 0);
    assert_eq!(p.read_byte(0xff41) & 0x03, 0x00);
}

#[test]
fn frame_period_single_call() {
    let mut p = PPU::new();
    p.write_byte(0xff40, 0x80);
    p.run(70224);
    assert_eq!(p.read_byte(0xff44), 0);
    assert_eq!(p.read_byte(0xff41) & 0x03, 0x02);
}

#[test]
fn frame_period_per_scanline_calls() {
    let mut p = PPU::new();
    p.write_byte(0xff40, 0x80);
    for _ in 0..154 {
        p.run(456);
    }
    assert_eq!(p.read_byte(0xff44), 0);
    assert_eq!(p.read_byte(0xff41) & 0x03, 0x02);
}

#[test]
fn batched_and_stepped_ticks_agree() {
    let mut batched = PPU::new();
    let mut stepped = PPU::new();
    batched.write_byte(0xff40, 0x80);
    stepped.write_byte(0xff40, 0x80);
    batched.run(12345);
    for _ in 0..12345 / 4 {
        stepped.run(4);
    }
    stepped.run(12345 % 4);
    assert_eq!(batched.read_byte(0xff44), stepped.read_byte(0xff44));
    assert_eq!(batched.read_byte(0xff41), stepped.read_byte(0xff41));
}

#[test]
fn vblank_entry() {
    let mut p = PPU::new();
    p.write_byte(0xff40, 0x80);
    p.run(144 * 456);
    assert_eq!(p.read_byte(0xff44), 144);
    assert_eq!(p.read_byte(0xff41) & 0x03, 0x01);
}

#[test]
fn stat_write_keeps_readonly_bits() {
    let mut p = PPU::new();
    // Only the four interrupt enables (bits 3..=6) are writable; at reset
    // LY == LYC, so the coincidence flag reads as set, and the mode code
    // is horizontal blank.
    p.write_byte(0xff41, 0xff);
    assert_eq!(p.read_byte(0xff41), 0x7c);
    p.write_byte(0xff41, 0x00);
    assert_eq!(p.read_byte(0xff41), 0x04);
}

#[test]
fn lyc_match_flag_follows_ly() {
    let mut p = PPU::new();
    assert_eq!(p.read_byte(0xff41) & 0x04, 0x04);
    p.write_byte(0xff45, 3);
    assert_eq!(p.read_byte(0xff45), 3);
    assert_eq!(p.read_byte(0xff41) & 0x04, 0x00);
    p.write_byte(0xff40, 0x80);
    p.run(3 * 456);
    assert_eq!(p.read_byte(0xff44), 3);
    assert_eq!(p.read_byte(0xff41) & 0x04, 0x04);
}

#[test]
fn scroll_and_palette_registers() {
    let mut p = PPU::new();
    p.write_byte(0xff42, 0x12);
    p.write_byte(0xff43, 0x34);
    p.write_byte(0xff47, 0xe4);
    assert_eq!(p.read_byte(0xff42), 0x12);
    assert_eq!(p.read_byte(0xff43), 0x34);
    assert_eq!(p.read_byte(0xff47), 0xe4);
}

#[test]
fn control_register_round_trip() {
    let mut p = PPU::new();
    p.write_byte(0xff40, 0x91);
    assert_eq!(p.read_byte(0xff40), 0x91);
}

#[test]
fn unmapped_addresses() {
    let mut p = PPU::new();
    assert_eq!(p.read_byte(0xff46), 0xff);
    assert_eq!(p.read_byte(0x0000), 0xff);
    assert_eq!(p.read_byte(0xfffe), 0xff);
    // Writes anywhere unmapped are silently ignored.
    p.write_byte(0xff46, 0x12);
    p.write_byte(0x1234, 0x34);
    assert_eq!(p.read_byte(0xff44), 0);
    assert_eq!(p.read_byte(0xff41), 0x04);
}
