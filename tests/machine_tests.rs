use gbemu::alu::{inc_byte, rotate_left_circular, test_bit};
use gbemu::bus::{Bus, WorkingRam};
use gbemu::buttons::{Button, Buttons, SelectedRows};
use gbemu::canvas::{Canvas, CanvasFail};
use gbemu::color::Color;
use gbemu::debugger::{Command, Debugger};
use gbemu::gpu::{BGWindowTileDataArea, ControlRegister, GPUMode, GPU};
use gbemu::registers::{AFRegister, FlagRegister, Register, RegisterPart};
use gbemu::sized::Sized;

fn rom_with_pattern() -> Vec<u8> {
    (0..0x4000u32).map(|i| (i * 7 % 251) as u8).collect()
}

#[test]
fn rom_window_shows_loaded_image() {
    let rom = rom_with_pattern();
    let bus = Bus::new_bus(rom.clone());
    for a in [0x0000u16, 0x0001, 0x0150, 0x1FFF, 0x3FFF] {
        assert_eq!(bus.fetch_byte(a), rom[a as usize]);
    }
    assert_eq!(bus.fetch_byte(0x4000), 0);
}

#[test]
fn short_image_reads_zero_past_its_end() {
    let bus = Bus::new_bus(vec![1, 2, 3]);
    assert_eq!(bus.fetch_byte(2), 3);
    assert_eq!(bus.fetch_byte(3), 0);
}

#[test]
fn byte_written_reads_back_in_every_region() {
    let mut bus = Bus::new_bus(vec![]);
    for (a, v) in [(0x8000u16, 1u8), (0x9FFF, 2), (0xA123, 3), (0xC000, 4), (0xDFFF, 5), (0xFE9F, 6), (0xFF00, 7), (0xFF7F, 8), (0xFF80, 9), (0xFFFE, 10), (0xFFFF, 11)] {
        bus.set_byte(a, v);
        assert_eq!(bus.fetch_byte(a), v);
    }
}

#[test]
fn echo_window_mirrors_work_ram() {
    let mut bus = Bus::new_bus(vec![]);
    bus.set_byte(0xE010, 0x42);
    assert_eq!(bus.fetch_byte(0xC010), 0x42);
    bus.set_byte(0xD123, 0x24);
    assert_eq!(bus.fetch_byte(0xF123), 0x24);
}

#[test]
fn word_written_reads_back() {
    let mut bus = Bus::new_bus(vec![]);
    for (a, v) in [(0xC000u16, 0xBEEFu16), (0xFFFD, 0x1234), (0x9FFF, 0xA55A), (0xFDFF, 0x0001)] {
        bus.set_word(a, v);
        assert_eq!(bus.fetch_word(a), v);
    }
    bus.set_word(0xC100, 0x1234);
    assert_eq!(bus.fetch_byte(0xC100), 0x34);
    assert_eq!(bus.fetch_byte(0xC101), 0x12);
}

#[test]
fn register_pairs_compose_high_byte_first() {
    let mut r = Register::new();
    r.set_word(0xABCD);
    assert_eq!(r.get_part(RegisterPart::High), 0xAB);
    assert_eq!(r.get_part(RegisterPart::Low), 0xCD);
    r.set_part(RegisterPart::Low, 0x01);
    assert_eq!(r.get_combined(), 0xAB01);
}

#[test]
fn flags_byte_keeps_top_nibble_only() {
    let mut af = AFRegister::new();
    af.set_word(0x12FF);
    assert_eq!(af.get_combined(), 0x12F0);
    af.set_part(RegisterPart::Low, 0b1010_0101);
    assert_eq!(af.get_part(RegisterPart::Low), 0b1010_0000);
    assert!(af.flags.get('z'));
    assert!(!af.flags.get('n'));
    assert!(af.flags.get('h'));
    assert!(!af.flags.get('c'));
    let mut f = FlagRegister::new();
    f.set('c');
    f.update('n', true);
    assert_eq!(f.to_byte(), 0b0101_0000);
    f.clear('c');
    assert_eq!(f.to_byte(), 0b0100_0000);
}

#[test]
fn alu_functions_on_values() {
    let f = FlagRegister::new();
    let (r, fl) = inc_byte(0xFF, f);
    assert_eq!(r, 0);
    assert!(fl.zero_flag && fl.h_flag && !fl.n_flag);
    let (r, fl) = rotate_left_circular(0b1000_0001);
    assert_eq!(r, 0b0000_0011);
    assert!(fl.carry_flag);
    assert!(!test_bit(3, 0b0000_1000, f).zero_flag);
    assert!(test_bit(3, 0b1111_0111, f).zero_flag);
    assert!(test_bit(3, 0b1111_0111, f).h_flag);
}

#[test]
fn sized_values() {
    assert_eq!(Sized::Zero.number_of_bytes(), 0);
    assert_eq!(Sized::Byte(3).number_of_bytes(), 1);
    assert_eq!(Sized::Word(3).number_of_bytes(), 2);
    assert!(Sized::Byte(0).is_value_zero());
    assert!(!Sized::Word(1).is_value_zero());
    assert!(Sized::Byte(0x10).check_value_for_half_carry());
    assert!(!Sized::Word(0x0100).check_value_for_half_carry());
    assert!(Sized::Word(0x1000).check_value_for_half_carry());
    assert!(!Sized::Byte(0x11).check_value_for_half_carry());
}

/// A bus with the display enabled and the background off.
fn display_on_bus() -> Bus {
    let mut bus = Bus::new_bus(vec![]);
    bus.set_byte(0xFF40, 0x80);
    bus
}

fn tick_n(gpu: &mut GPU, bus: &mut Bus, canvas: &mut Canvas, n: u32) -> u32 {
    let mut frames = 0;
    for _ in 0..n {
        if gpu.tick(bus, canvas) {
            frames += 1;
        }
    }
    frames
}

#[test]
fn ppu_mode_sequence_over_lines() {
    let mut bus = display_on_bus();
    let mut canvas = Canvas::new(160, 144);
    let mut gpu = GPU::new();
    tick_n(&mut gpu, &mut bus, &mut canvas, 79);
    assert!(gpu.mode == GPUMode::SearchingOAM);
    tick_n(&mut gpu, &mut bus, &mut canvas, 1);
    assert!(gpu.mode == GPUMode::SearchingVRAM);
    assert_eq!(gpu.clock_cycles, 0);
    tick_n(&mut gpu, &mut bus, &mut canvas, 172);
    assert!(gpu.mode == GPUMode::HBlank);
    assert_eq!(gpu.clock_cycles, 0);
    tick_n(&mut gpu, &mut bus, &mut canvas, 204);
    assert!(gpu.mode == GPUMode::SearchingOAM);
    assert_eq!(gpu.current_line, 1);
    assert_eq!(bus.fetch_byte(0xFF44), 1);
    // lines 1..=141 complete, then line 142 up to the end of its horizontal blank
    tick_n(&mut gpu, &mut bus, &mut canvas, 141 * 456 + 455);
    assert!(gpu.mode == GPUMode::HBlank);
    assert_eq!(gpu.current_line, 142);
    assert_eq!(bus.fetch_byte(0xFF0F) & 1, 0);
    let frames = tick_n(&mut gpu, &mut bus, &mut canvas, 1);
    assert_eq!(frames, 1);
    assert!(gpu.mode == GPUMode::VBlank);
    assert_eq!(gpu.current_line, 143);
    assert_eq!(bus.fetch_byte(0xFF0F) & 1, 1);
    assert_eq!(bus.fetch_byte(0xFF41), 1);
}

#[test]
fn frame_takes_70224_ticks() {
    let mut bus = display_on_bus();
    let mut canvas = Canvas::new(160, 144);
    let mut gpu = GPU::new();
    let mut ticks: u32 = 0;
    while !gpu.tick(&mut bus, &mut canvas) {
        ticks += 1;
    }
    let mut between: u32 = 0;
    loop {
        between += 1;
        if gpu.tick(&mut bus, &mut canvas) {
            break;
        }
    }
    assert_eq!(ticks + 1, 143 * 456);
    assert_eq!(between, 70224);
}

#[test]
fn dma_copies_source_page_into_oam() {
    let mut bus = Bus::new_bus(vec![]);
    for i in 0..0xA0u16 {
        bus.set_byte(0xC000 + i, (i as u8).wrapping_mul(3).wrapping_add(1));
    }
    bus.set_byte(0xFF46, 0xC0);
    let mut canvas = Canvas::new(160, 144);
    let mut gpu = GPU::new();
    gpu.tick(&mut bus, &mut canvas);
    for i in 0..0xA0u16 {
        assert_eq!(bus.fetch_byte(0xFE00 + i), bus.fetch_byte(0xC000 + i));
    }
    assert_eq!(bus.fetch_byte(0xFF46), 0);
}

#[test]
fn disabled_display_parks_once_and_clears_screen() {
    let mut bus = Bus::new_bus(vec![]);
    let mut canvas = Canvas::new(160, 144);
    canvas.set_draw_color(Color::from(1, 2, 3));
    canvas.set_pixel(5, 5).unwrap();
    let mut gpu = GPU::new();
    assert!(gpu.tick(&mut bus, &mut canvas));
    assert!(gpu.stopped);
    assert_eq!(canvas.get_pixel(5, 5), Ok(0xFFFFFF));
    assert!(!gpu.tick(&mut bus, &mut canvas));
    bus.set_byte(0xFF40, 0x80);
    gpu.tick(&mut bus, &mut canvas);
    assert!(!gpu.stopped);
    assert_eq!(gpu.clock_cycles, 1);
}

#[test]
fn scanline_draws_background_tile() {
    let mut bus = Bus::new_bus(vec![]);
    // display on, background on, tile data at 0x8000
    bus.set_byte(0xFF40, 0x91);
    // palette: index 1 -> shade 3 (black), index 0 -> shade 0 (white)
    bus.set_byte(0xFF47, 0b0000_1100);
    // tile 1: first row has its leftmost pixel at color index 1
    bus.set_byte(0x8010, 0b1000_0000);
    bus.set_byte(0x9800, 1);
    let mut canvas = Canvas::new(160, 144);
    let mut gpu = GPU::new();
    tick_n(&mut gpu, &mut bus, &mut canvas, 80 + 172);
    assert_eq!(canvas.get_pixel(0, 0), Ok(0x000000));
    assert_eq!(canvas.get_pixel(1, 0), Ok(0xFFFFFF));
    assert_eq!(canvas.get_pixel(8, 0), Ok(0xFFFFFF));
}

#[test]
fn sprite_overlays_background() {
    let mut bus = Bus::new_bus(vec![]);
    // display on, sprites on, background on
    bus.set_byte(0xFF40, 0x93);
    bus.set_byte(0xFF47, 0b0010_0000);
    // tile 2, row 0: leftmost pixel color index 2
    bus.set_byte(0x8021, 0b1000_0000);
    // sprite 0 at screen (10, 0)
    bus.set_byte(0xFE00, 16);
    bus.set_byte(0xFE01, 18);
    bus.set_byte(0xFE02, 2);
    let mut canvas = Canvas::new(160, 144);
    let mut gpu = GPU::new();
    tick_n(&mut gpu, &mut bus, &mut canvas, 80 + 172);
    assert_eq!(canvas.get_pixel(10, 0), Ok(0x606060));
    assert_eq!(canvas.get_pixel(11, 0), Ok(0xFFFFFF));
}

#[test]
fn disabled_background_leaves_pixels() {
    let mut bus = Bus::new_bus(vec![]);
    // display on, background and sprites off
    bus.set_byte(0xFF40, 0x80);
    let mut canvas = Canvas::new(160, 144);
    canvas.set_draw_color(Color::from(1, 2, 3));
    canvas.set_pixel(7, 0).unwrap();
    let mut gpu = GPU::new();
    tick_n(&mut gpu, &mut bus, &mut canvas, 80 + 172);
    assert_eq!(canvas.get_pixel(7, 0), Ok(0x010203));
    assert_eq!(canvas.get_pixel(8, 0), Ok(0));
}

#[test]
fn background_map_is_fixed() {
    let mut bus = Bus::new_bus(vec![]);
    // display on, background on, tile data at 0x8000, map-select bit set
    bus.set_byte(0xFF40, 0x99);
    bus.set_byte(0xFF47, 0b0000_1100);
    bus.set_byte(0x8010, 0b1000_0000);
    bus.set_byte(0x9800, 1);
    let mut canvas = Canvas::new(160, 144);
    let mut gpu = GPU::new();
    tick_n(&mut gpu, &mut bus, &mut canvas, 80 + 172);
    assert_eq!(canvas.get_pixel(0, 0), Ok(0x000000));
}

#[test]
fn control_register_decoding() {
    let mut bus = Bus::new_bus(vec![]);
    bus.set_byte(0xFF40, 0x91);
    let c = ControlRegister::fetch(&bus);
    assert!(c.display_enabled);
    assert!(c.bg_window_enable_priority);
    assert!(!c.obj_enabled);
    assert_eq!(c.bg_window_tile_data_area.address(), 0x8000);
    assert_eq!(BGWindowTileDataArea::Area9000.address(), 0x9000);
    assert_eq!(GPUMode::SearchingVRAM.as_u8(), 4);
}

#[test]
fn canvas_bounds() {
    let mut canvas = Canvas::new(160, 144);
    assert_eq!(canvas.set_pixel(160, 0), Err(CanvasFail::IndexOutOfBounds));
    assert_eq!(canvas.set_pixel(0, 144), Err(CanvasFail::IndexOutOfBounds));
    assert_eq!(canvas.get_pixel(159, 143), Ok(0));
    canvas.set_pixel(159, 143).unwrap();
    assert_eq!(canvas.get_pixel(159, 143), Ok(0xFFFFFF));
    assert_eq!(canvas.buffer()[160 * 144 - 1], 0xFFFFFF);
    canvas.set_draw_color(Color::of_shade(2));
    canvas.fill_with_color();
    assert!(canvas.buffer().iter().all(|&p| p == 0x606060));
}

#[test]
fn color_packing() {
    assert_eq!(Color::from(0x12, 0x34, 0x56).as_u32(), 0x123456);
    assert_eq!(Color::of_shade(1).as_u32(), 0xC0C0C0);
    assert_eq!(Color::of_shade(3).as_u32(), 0);
}

#[test]
fn button_register_reflects_selected_row() {
    let mut bus = Bus::new_bus(vec![]);
    let mut keys = Buttons::new();
    keys.key_down(Button::Up);
    keys.set_key(Button::A, true);
    // select the direction row
    bus.set_byte(0xFF00, 0b0010_0000);
    let rows = SelectedRows::fetch(&bus);
    assert!(rows.first && !rows.second);
    keys.update_register(&mut bus);
    assert_eq!(bus.fetch_byte(0xFF00), 0b1111_1011);
    // select the action row
    bus.set_byte(0xFF00, 0b0001_0000);
    keys.update_register(&mut bus);
    assert_eq!(bus.fetch_byte(0xFF00), 0b1111_1110);
    // both rows selected: the direction row is shown
    bus.set_byte(0xFF00, 0b0000_0000);
    keys.update_register(&mut bus);
    assert_eq!(bus.fetch_byte(0xFF00), 0b1111_1011);
    // no row selected: the register is left alone
    bus.set_byte(0xFF00, 0b0011_0000);
    keys.update_register(&mut bus);
    assert_eq!(bus.fetch_byte(0xFF00), 0b0011_0000);
    keys.key_up(Button::Up);
    assert_eq!(keys.row_1, 0xF);
}

#[test]
fn working_ram_reads_relative_to_base() {
    let ram = WorkingRam::from_size(16, 0x8000);
    assert_eq!(ram.get_byte(0x8000), 0);
    assert_eq!(ram.get_byte(0x800F), 0);
}

#[test]
fn debugger_breakpoints() {
    let mut d = Debugger::new_debugger();
    assert_eq!(d.add_breakpoint(0x150), 0);
    assert_eq!(d.add_breakpoint(0x200), 1);
    assert_eq!(d.add_breakpoint(0x150), -1);
    assert!(d.is_a_breakpoint(0x200));
    assert_eq!(d.remove_breakpoint(0x150), 0);
    assert_eq!(d.remove_breakpoint(0x150), -1);
    assert!(!d.check_breakpoints(0x150, 0));
    assert!(d.check_breakpoints(0x200, 0));
    d.resume();
    d.add_value_breakpoint(0x1234);
    assert!(d.is_a_de_val_bp(0x1234));
    assert!(d.check_breakpoints(0x100, 0x1234));
    d.set_paused(false);
    d.toggle_tileset();
    assert!(d.viewing_tileset());
    d.start_paused();
    assert!(!d.is_running());
    let c = Command::new_command("step".to_string());
    assert_eq!(c.name, "step");
    assert!(c.args.is_empty());
}
