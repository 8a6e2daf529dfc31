use embedded_graphics::mono_font::ascii::FONT_10X20;
use embedded_graphics::mono_font::MonoTextStyleBuilder;
use embedded_graphics::prelude::{DrawTarget, Drawable, Point};
use embedded_graphics::text::{Baseline, Text, TextStyleBuilder};
use epd_waveshare::color::Color;
use epd_waveshare::epd2in9_v2::Display2in9;
use epd_waveshare::prelude::DisplayRotation;
use plant_telemetry::measure::Measure;
use plant_telemetry::plant_display::{
    DisplayInput, PanelCommand, PlantDisplay, RenderPhase, RenderStep, FRAME_BYTES,
    MAX_TEXT_CHARS, PANEL_SETTLE_MS,
};

fn input(name: &str, moisture: i32, light: i32) -> DisplayInput {
    DisplayInput {
        plant_name: String::from(name),
        soil_moisture: Measure::from_hundredths(moisture),
        light_intensity: Measure::from_hundredths(light),
    }
}

fn draw(display: &mut Display2in9, text: &str, x: i32, y: i32) {
    let style = MonoTextStyleBuilder::new()
        .font(&FONT_10X20)
        .text_color(Color::Black)
        .background_color(Color::White)
        .build();
    let text_style = TextStyleBuilder::new().baseline(Baseline::Top).build();
    Text::with_text_style(text, Point::new(x, y), style, text_style).draw(display).unwrap();
}

/// The frame as the panel crates draw it when they are used directly.
fn reference_frame(name: &str, moisture: &str, light: &str) -> Vec<u8> {
    let mut display = Display2in9::default();
    display.clear(Color::White).unwrap();
    display.set_rotation(DisplayRotation::Rotate90);
    draw(&mut display, name, 10, 10);
    draw(&mut display, moisture, 15, 70);
    draw(&mut display, light, 160, 70);
    display.buffer().to_vec()
}

fn frame_of(command: Option<PanelCommand>) -> Vec<u8> {
    match command {
        Some(PanelCommand::UpdateFrame { buffer }) => buffer,
        other => panic!("no frame: {other:?}"),
    }
}

#[test]
fn new_display_is_idle_and_blank() {
    let display = PlantDisplay::new();
    assert!(display.is_idle());
    assert_eq!(display.current_phase(), RenderPhase::Idle);
    assert_eq!(display.buffer(), vec![0x00; FRAME_BYTES]);
    assert_eq!(FRAME_BYTES, 128 / 8 * 296);
}

#[test]
fn clear_paints_every_byte_white() {
    let mut display = PlantDisplay::new();
    display.clear();
    assert_eq!(display.buffer(), vec![0xFF; FRAME_BYTES]);
    assert!(display.is_idle());
}

#[test]
fn black_paints_every_byte_black() {
    let mut display = PlantDisplay::new();
    display.clear();
    display.Black();
    assert_eq!(display.buffer(), vec![0x00; FRAME_BYTES]);
    assert!(display.is_idle());
}

#[test]
fn clear_wipes_what_was_rendered() {
    let mut display = PlantDisplay::new();
    let frame = frame_of(display.display_input(&input("Monstera", 5_000, 34_310)));
    assert_ne!(frame, vec![0xFF; FRAME_BYTES]);
    display.clear();
    assert_eq!(display.buffer(), vec![0xFF; FRAME_BYTES]);
    display.Black();
    assert_eq!(display.buffer(), vec![0x00; FRAME_BYTES]);
}

#[test]
fn render_draws_the_three_fields() {
    let mut display = PlantDisplay::new();
    let frame = frame_of(display.display_input(&input("Vilem zahradni", 5_000, 34_310)));
    assert_eq!(frame.len(), FRAME_BYTES);
    assert_eq!(frame, reference_frame("Vilem zahradni", "50.00%", "343.10 lux"));
    assert_eq!(display.buffer(), frame);
    assert_eq!(display.current_phase(), RenderPhase::Updating);
    assert!(!display.is_idle());
}

#[test]
fn render_is_drawn_in_landscape_on_white() {
    let mut display = PlantDisplay::new();
    let frame = frame_of(display.display_input(&input("A", 0, 0)));
    // Drawn without the quarter turn the same three texts land elsewhere.
    let mut upright = Display2in9::default();
    upright.clear(Color::White).unwrap();
    draw(&mut upright, "A", 10, 10);
    draw(&mut upright, "0.00%", 15, 70);
    draw(&mut upright, "0.00 lux", 160, 70);
    assert_ne!(frame, upright.buffer().to_vec());
    // Drawn on the blank frame the background would be black.
    let mut dark = Display2in9::default();
    dark.set_rotation(DisplayRotation::Rotate90);
    draw(&mut dark, "A", 10, 10);
    draw(&mut dark, "0.00%", 15, 70);
    draw(&mut dark, "0.00 lux", 160, 70);
    assert_ne!(frame, dark.buffer().to_vec());
    assert_eq!(frame, reference_frame("A", "0.00%", "0.00 lux"));
}

#[test]
fn render_depends_on_each_field() {
    let base = frame_of(PlantDisplay::new().display_input(&input("Fern", 1_234, 5_678)));
    let name = frame_of(PlantDisplay::new().display_input(&input("Fig", 1_234, 5_678)));
    let moisture = frame_of(PlantDisplay::new().display_input(&input("Fern", 1_235, 5_678)));
    let light = frame_of(PlantDisplay::new().display_input(&input("Fern", 1_234, 5_679)));
    assert_ne!(base, name);
    assert_ne!(base, moisture);
    assert_ne!(base, light);
    assert_eq!(base, frame_of(PlantDisplay::new().display_input(&input("Fern", 1_234, 5_678))));
    assert_eq!(base, reference_frame("Fern", "12.34%", "56.78 lux"));
}

#[test]
fn render_starts_from_a_white_frame_each_time() {
    let mut display = PlantDisplay::new();
    frame_of(display.display_input(&input("A very long plant name", 10_000, 5_461_250)));
    assert!(matches!(display.advance(false), RenderStep::Failed));
    let second = frame_of(display.display_input(&input("Ivy", 0, 0)));
    assert_eq!(second, reference_frame("Ivy", "0.00%", "0.00 lux"));
}

#[test]
fn render_takes_the_empty_name_and_a_name_off_the_panel() {
    let mut display = PlantDisplay::new();
    let frame = frame_of(display.display_input(&input("", 0, 0)));
    assert_eq!(frame, reference_frame("", "0.00%", "0.00 lux"));
    assert!(matches!(display.advance(false), RenderStep::Failed));
    let long = "x".repeat(500);
    let frame = frame_of(display.display_input(&input(&long, 0, 0)));
    assert_eq!(frame, reference_frame(&long, "0.00%", "0.00 lux"));
    assert!(matches!(display.advance(false), RenderStep::Failed));
    let lines = "first\nsecond\r\nthird \u{17e}";
    let frame = frame_of(display.display_input(&input(lines, 0, 0)));
    assert_eq!(frame, reference_frame(lines, "0.00%", "0.00 lux"));
}

#[test]
fn full_update_takes_three_commands() {
    let mut display = PlantDisplay::new();
    let first = display.display_input(&input("Fern", 1_234, 5_678));
    assert!(matches!(first, Some(PanelCommand::UpdateFrame { .. })));
    let drawn = display.buffer();

    assert_eq!(display.advance(true), RenderStep::Send(PanelCommand::DisplayFrame));
    assert_eq!(display.current_phase(), RenderPhase::Latching);
    assert_eq!(
        display.advance(true),
        RenderStep::Send(PanelCommand::Settle { millis: PANEL_SETTLE_MS })
    );
    assert_eq!(PANEL_SETTLE_MS, 2000);
    assert_eq!(display.current_phase(), RenderPhase::Settling);
    assert_eq!(display.advance(true), RenderStep::Done);
    assert!(display.is_idle());
    assert_eq!(display.buffer(), drawn);
}

#[test]
fn transport_failure_ends_the_render() {
    let mut display = PlantDisplay::new();
    display.display_input(&input("Fern", 1, 2));
    assert_eq!(display.advance(false), RenderStep::Failed);
    assert!(display.is_idle());

    display.display_input(&input("Fern", 1, 2));
    assert_eq!(display.advance(true), RenderStep::Send(PanelCommand::DisplayFrame));
    assert_eq!(display.advance(false), RenderStep::Failed);
    assert!(display.is_idle());

    display.display_input(&input("Fern", 1, 2));
    display.advance(true);
    display.advance(true);
    assert_eq!(display.advance(false), RenderStep::Failed);
    assert!(display.is_idle());
}

#[test]
fn idle_display_has_nothing_to_go_on_with() {
    let mut display = PlantDisplay::new();
    assert_eq!(display.advance(true), RenderStep::Done);
    assert_eq!(display.advance(false), RenderStep::Done);
    assert!(display.is_idle());
    assert_eq!(display.buffer(), vec![0x00; FRAME_BYTES]);
}

#[test]
fn renders_do_not_overlap() {
    let mut display = PlantDisplay::new();
    let first = frame_of(display.display_input(&input("Fern", 1_234, 5_678)));
    assert_eq!(display.display_input(&input("Fig", 1, 2)), None);
    assert_eq!(display.current_phase(), RenderPhase::Updating);
    assert_eq!(display.buffer(), first);
    display.advance(true);
    assert_eq!(display.display_input(&input("Fig", 1, 2)), None);
    assert_eq!(display.current_phase(), RenderPhase::Latching);
    display.advance(true);
    assert_eq!(display.display_input(&input("Fig", 1, 2)), None);
    assert_eq!(display.current_phase(), RenderPhase::Settling);
    assert_eq!(display.buffer(), first);
    display.advance(true);
    let second = frame_of(display.display_input(&input("Fig", 1, 2)));
    assert_eq!(second, reference_frame("Fig", "0.01%", "0.02 lux"));
}

#[test]
fn snapshot_starts_at_zero() {
    let snapshot = DisplayInput::new(String::from("Fern"));
    assert_eq!(snapshot, input("Fern", 0, 0));
    assert!(snapshot.fits());
}

#[test]
fn overlong_name_does_not_fit() {
    assert_eq!(MAX_TEXT_CHARS, 100_000_000);
    let snapshot = DisplayInput::new("x".repeat(MAX_TEXT_CHARS + 1));
    assert!(!snapshot.fits());
    let snapshot = DisplayInput::new("x".repeat(MAX_TEXT_CHARS));
    assert!(snapshot.fits());
}
