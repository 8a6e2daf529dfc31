//! The renderer of the 2.9" bistable panel.
//!
//! A render paints the snapshot into the frame buffer and then walks the panel
//! through a full update: push the frame, latch it, let the panel settle. The
//! transport belongs to the caller: [`PlantDisplay`] hands out one
//! [`PanelCommand`] at a time and is told whether it went through.

use crate::measure::{fixed2_text, lemma_decimal_digits_len, magnitude, Measure};
use embedded_graphics::mono_font::ascii::FONT_10X20;
use embedded_graphics::mono_font::MonoTextStyleBuilder;
use embedded_graphics::prelude::{DrawTarget, Drawable, Point};
use embedded_graphics::text::{Baseline, Text, TextStyleBuilder};
use epd_waveshare::color::Color;
use epd_waveshare::epd2in9_v2::Display2in9;
use epd_waveshare::prelude::DisplayRotation;
use vstd::prelude::*;
use vstd::string::*;

verus! {

/// Bytes in one frame: 128 pixels a row, one bit each, 296 rows.
pub const FRAME_BYTES: usize = 4736;

/// Longest text the renderer is given. Its pixel coordinates are 32-bit and
/// move on by at most 20 for each character, so a text of this length keeps
/// them in range.
pub const MAX_TEXT_CHARS: usize = 100_000_000;

/// Largest coordinate at which a text may start.
pub const MAX_ORIGIN: i32 = 4096;

/// Milliseconds the panel needs after a latch before it takes another frame.
pub const PANEL_SETTLE_MS: u32 = 2000;

/// Where the plant name starts, from the left.
pub const NAME_X: i32 = 10;

/// Where the plant name starts, from the top.
pub const NAME_Y: i32 = 10;

/// Where the soil moisture starts, from the left.
pub const MOISTURE_X: i32 = 15;

/// Where the soil moisture starts, from the top.
pub const MOISTURE_Y: i32 = 70;

/// Where the light intensity starts, from the left.
pub const LIGHT_X: i32 = 160;

/// Where the light intensity starts, from the top.
pub const LIGHT_Y: i32 = 70;

/// What one render shows.
#[derive(Debug, PartialEq, Eq)]
pub struct DisplayInput {
    pub plant_name: String,
    pub soil_moisture: Measure,
    pub light_intensity: Measure,
}

/// A snapshot with its plant name as a sequence of characters.
pub struct DisplayInputView {
    pub plant_name: Seq<char>,
    pub soil_moisture: Measure,
    pub light_intensity: Measure,
}

impl View for DisplayInput {
    type V = DisplayInputView;

    open spec fn view(&self) -> DisplayInputView {
        DisplayInputView {
            plant_name: self.plant_name@,
            soil_moisture: self.soil_moisture,
            light_intensity: self.light_intensity,
        }
    }
}

impl DisplayInput {
    /// A snapshot that shows `plant_name` and zero for both readings.
    pub fn new(plant_name: String) -> (input: Self)
        ensures
            input@ == (DisplayInputView {
                plant_name: plant_name@,
                soil_moisture: Measure { hundredths: 0 },
                light_intensity: Measure { hundredths: 0 },
            }),
    {
        DisplayInput {
            plant_name,
            soil_moisture: Measure::zero(),
            light_intensity: Measure::zero(),
        }
    }

    /// Whether the plant name is short enough to be drawn.
    pub fn fits(&self) -> (ok: bool)
        ensures
            ok == (self.plant_name@.len() <= MAX_TEXT_CHARS),
    {
        self.plant_name.as_str().unicode_len() <= MAX_TEXT_CHARS
    }
}

/// The frame buffer of the panel: the pixels drawn so far and the rotation
/// that applies to what is drawn next. It is the `Display2in9` of
/// `epd_waveshare`; [`frame_bytes`] and [`frame_turns`] name what it holds.
#[verifier::external_body]
pub struct FrameBuffer {
    display: Display2in9,
}

/// The bytes of the frame, row by row, eight pixels a byte, a set bit white.
pub uninterp spec fn frame_bytes(frame: FrameBuffer) -> Seq<u8>;

/// The rotation of the frame, in quarter turns clockwise.
pub uninterp spec fn frame_turns(frame: FrameBuffer) -> int;

/// The bytes of a frame after `text` was drawn on it at `(x, y)`: black on
/// white in the 10x20 font, the position being the top left corner, on a
/// frame that held `frame` and was rotated by `turns` quarter turns.
pub uninterp spec fn text_drawn(
    frame: Seq<u8>,
    turns: int,
    text: Seq<char>,
    x: int,
    y: int,
) -> Seq<u8>;

/// A frame whose bytes all equal `byte`.
pub open spec fn solid_frame(byte: u8) -> Seq<u8> {
    Seq::new(FRAME_BYTES as nat, |i: int| byte)
}

/// `Display2in9::default()`: a frame of zero bytes, not rotated.
#[verifier::external_body]
fn blank_frame() -> (frame: FrameBuffer)
    ensures
        frame_bytes(frame) == solid_frame(0x00),
        frame_turns(frame) == 0,
{
    FrameBuffer { display: Display2in9::default() }
}

/// The two colours of the panel.
#[derive(Clone, Copy, Debug, PartialEq, Eq, Structural)]
enum Ink {
    Black,
    White,
}

/// The byte of eight pixels of one colour: a set bit is a white pixel.
spec fn ink_byte(ink: Ink) -> u8 {
    match ink {
        Ink::Black => 0x00,
        Ink::White => 0xFF,
    }
}

/// `DrawTarget::clear`: every pixel of the frame takes the colour, so every
/// byte becomes the byte of that colour; the rotation stays.
#[verifier::external_body]
fn fill(frame: &mut FrameBuffer, ink: Ink)
    ensures
        frame_bytes(*final(frame)) == solid_frame(ink_byte(ink)),
        frame_turns(*final(frame)) == frame_turns(*old(frame)),
{
    let color = match ink {
        Ink::Black => Color::Black,
        Ink::White => Color::White,
    };
    let _ = frame.display.clear(color);
}

/// `Display::set_rotation` with `Rotate90`: later drawing is turned by one
/// quarter; what is in the frame stays.
#[verifier::external_body]
fn turn_landscape(frame: &mut FrameBuffer)
    ensures
        frame_bytes(*final(frame)) == frame_bytes(*old(frame)),
        frame_turns(*final(frame)) == 1,
{
    frame.display.set_rotation(DisplayRotation::Rotate90);
}

/// `Text::draw` with the 10x20 font, black on white, baseline at the top. The
/// bytes afterwards are named by [`text_drawn`]; their number and the rotation
/// stay. Text and origin are bounded so that the renderer's 32-bit
/// coordinates cannot overflow.
#[verifier::external_body]
fn draw_text_at(frame: &mut FrameBuffer, text: &str, x: i32, y: i32)
    requires
        text@.len() <= MAX_TEXT_CHARS,
        0 <= x <= MAX_ORIGIN,
        0 <= y <= MAX_ORIGIN,
    ensures
        frame_bytes(*final(frame)) == text_drawn(
            frame_bytes(*old(frame)),
            frame_turns(*old(frame)),
            text@,
            x as int,
            y as int,
        ),
        frame_bytes(*final(frame)).len() == frame_bytes(*old(frame)).len(),
        frame_turns(*final(frame)) == frame_turns(*old(frame)),
{
    let style = MonoTextStyleBuilder::new()
        .font(&FONT_10X20)
        .text_color(Color::Black)
        .background_color(Color::White)
        .build();
    let text_style = TextStyleBuilder::new().baseline(Baseline::Top).build();
    let _ = Text::with_text_style(text, Point::new(x, y), style, text_style).draw(
        &mut frame.display,
    );
}

/// `Display::buffer`, copied: the bytes of the frame.
#[verifier::external_body]
fn copy_frame(frame: &FrameBuffer) -> (bytes: Vec<u8>)
    ensures
        bytes@ == frame_bytes(*frame),
{
    frame.display.buffer().to_vec()
}

/// The text of the moisture field: two decimals and a percent sign.
pub open spec fn moisture_text(value: Measure) -> Seq<char> {
    fixed2_text(value.hundredths as int).push('%')
}

/// The text of the light field: two decimals and the unit.
pub open spec fn light_text(value: Measure) -> Seq<char> {
    fixed2_text(value.hundredths as int) + seq![' ', 'l', 'u', 'x']
}

/// The frame that shows `input`: a white frame in landscape with the plant
/// name, the moisture and the light intensity drawn on it in this order.
pub open spec fn rendered_frame(input: DisplayInputView) -> Seq<u8> {
    let named = text_drawn(
        solid_frame(0xFF),
        1,
        input.plant_name,
        NAME_X as int,
        NAME_Y as int,
    );
    let with_moisture = text_drawn(
        named,
        1,
        moisture_text(input.soil_moisture),
        MOISTURE_X as int,
        MOISTURE_Y as int,
    );
    text_drawn(
        with_moisture,
        1,
        light_text(input.light_intensity),
        LIGHT_X as int,
        LIGHT_Y as int,
    )
}

/// Where the renderer stands. `Idle`: the frame holds what was rendered last.
/// The other three are the steps of a render in progress, each waiting for
/// the outcome of the command that was handed out.
#[derive(Clone, Copy, Debug, PartialEq, Eq, Structural)]
pub enum RenderPhase {
    Idle,
    /// The frame was handed out for a full-frame update.
    Updating,
    /// The panel was told to latch the frame.
    Latching,
    /// The panel is settling.
    Settling,
}

/// What the caller does to the panel.
#[derive(Debug, PartialEq, Eq)]
pub enum PanelCommand {
    /// Send the whole frame.
    UpdateFrame { buffer: Vec<u8> },
    /// Latch the frame that was sent.
    DisplayFrame,
    /// Wait before anything else is sent.
    Settle { millis: u32 },
}

/// A panel command with its frame as a sequence of bytes.
pub enum PanelCommandView {
    UpdateFrame { buffer: Seq<u8> },
    DisplayFrame,
    Settle { millis: u32 },
}

impl View for PanelCommand {
    type V = PanelCommandView;

    open spec fn view(&self) -> PanelCommandView {
        match self {
            PanelCommand::UpdateFrame { buffer } => PanelCommandView::UpdateFrame {
                buffer: buffer@,
            },
            PanelCommand::DisplayFrame => PanelCommandView::DisplayFrame,
            PanelCommand::Settle { millis } => PanelCommandView::Settle { millis: *millis },
        }
    }
}

/// How a render goes on after a command was carried out.
#[derive(Debug, PartialEq, Eq)]
pub enum RenderStep {
    /// The next command.
    Send(PanelCommand),
    /// The render is complete.
    Done,
    /// The transport failed; the render is given up.
    Failed,
}

/// A render step over the view of its command.
pub enum RenderStepView {
    Send(PanelCommandView),
    Done,
    Failed,
}

impl View for RenderStep {
    type V = RenderStepView;

    open spec fn view(&self) -> RenderStepView {
        match self {
            RenderStep::Send(command) => RenderStepView::Send(command@),
            RenderStep::Done => RenderStepView::Done,
            RenderStep::Failed => RenderStepView::Failed,
        }
    }
}

/// The phase after the pending command was carried out (`delivered`) or
/// failed. A failure anywhere ends the render.
pub open spec fn phase_after(phase: RenderPhase, delivered: bool) -> RenderPhase {
    match phase {
        RenderPhase::Updating => if delivered {
            RenderPhase::Latching
        } else {
            RenderPhase::Idle
        },
        RenderPhase::Latching => if delivered {
            RenderPhase::Settling
        } else {
            RenderPhase::Idle
        },
        RenderPhase::Settling => RenderPhase::Idle,
        RenderPhase::Idle => RenderPhase::Idle,
    }
}

/// What the renderer answers when the pending command was carried out
/// (`delivered`) or failed.
pub open spec fn step_after(phase: RenderPhase, delivered: bool) -> RenderStepView {
    match phase {
        RenderPhase::Updating => if delivered {
            RenderStepView::Send(PanelCommandView::DisplayFrame)
        } else {
            RenderStepView::Failed
        },
        RenderPhase::Latching => if delivered {
            RenderStepView::Send(PanelCommandView::Settle { millis: PANEL_SETTLE_MS })
        } else {
            RenderStepView::Failed
        },
        RenderPhase::Settling => if delivered {
            RenderStepView::Done
        } else {
            RenderStepView::Failed
        },
        RenderPhase::Idle => RenderStepView::Done,
    }
}

/// The renderer: the frame buffer and the phase of the render.
pub struct PlantDisplay {
    frame: FrameBuffer,
    phase: RenderPhase,
}

/// A number with two decimals and a unit is far shorter than the longest
/// text the renderer takes.
pub proof fn lemma_field_texts_fit(value: Measure)
    ensures
        moisture_text(value).len() <= MAX_TEXT_CHARS,
        light_text(value).len() <= MAX_TEXT_CHARS,
{
    let h = value.hundredths as int;
    let m = magnitude(h);
    lemma_decimal_digits_len(m / 100);
}

impl PlantDisplay {
    /// The bytes of the frame.
    pub closed spec fn frame(&self) -> Seq<u8> {
        frame_bytes(self.frame)
    }

    /// The rotation of the frame, in quarter turns clockwise.
    pub closed spec fn turns(&self) -> int {
        frame_turns(self.frame)
    }

    /// The phase of the render.
    pub closed spec fn phase(&self) -> RenderPhase {
        self.phase
    }

    /// An idle renderer over a frame of zero bytes that is not rotated.
    pub fn new() -> (display: Self)
        ensures
            display.phase() == RenderPhase::Idle,
            display.frame() == solid_frame(0x00),
            display.turns() == 0,
    {
        PlantDisplay { frame: blank_frame(), phase: RenderPhase::Idle }
    }

    /// Paints the whole frame white.
    pub fn clear(&mut self)
        ensures
            final(self).frame() == solid_frame(0xFF),
            final(self).turns() == old(self).turns(),
            final(self).phase() == old(self).phase(),
    {
        fill(&mut self.frame, Ink::White);
    }

    /// Paints the whole frame black.
    #[allow(non_snake_case)]
    pub fn Black(&mut self)
        ensures
            final(self).frame() == solid_frame(0x00),
            final(self).turns() == old(self).turns(),
            final(self).phase() == old(self).phase(),
    {
        fill(&mut self.frame, Ink::Black);
    }

    /// Draws `text` with its top left corner at `(x, y)`.
    fn draw_text(&mut self, text: &str, x: i32, y: i32)
        requires
            text@.len() <= MAX_TEXT_CHARS,
            0 <= x <= MAX_ORIGIN,
            0 <= y <= MAX_ORIGIN,
        ensures
            final(self).frame() == text_drawn(
                old(self).frame(),
                old(self).turns(),
                text@,
                x as int,
                y as int,
            ),
            final(self).frame().len() == old(self).frame().len(),
            final(self).turns() == old(self).turns(),
            final(self).phase() == old(self).phase(),
    {
        draw_text_at(&mut self.frame, text, x, y);
    }

    /// Starts a render of `input`. An idle renderer paints the frame, turns to
    /// `Updating` and hands out the frame for a full update. A renderer in
    /// the middle of a render changes nothing and hands out nothing: renders
    /// do not overlap.
    pub fn display_input(&mut self, input: &DisplayInput) -> (command: Option<PanelCommand>)
        requires
            input.plant_name@.len() <= MAX_TEXT_CHARS,
        ensures
            old(self).phase() == RenderPhase::Idle ==> {
                &&& final(self).phase() == RenderPhase::Updating
                &&& final(self).frame() == rendered_frame(input@)
                &&& final(self).frame().len() == FRAME_BYTES
                &&& final(self).turns() == 1
                &&& command matches Some(c)
                &&& c@ == (PanelCommandView::UpdateFrame { buffer: rendered_frame(input@) })
            },
            old(self).phase() != RenderPhase::Idle ==> {
                &&& final(self).phase() == old(self).phase()
                &&& final(self).frame() == old(self).frame()
                &&& final(self).turns() == old(self).turns()
                &&& command is None
            },
    {
        match self.phase {
            RenderPhase::Idle => {},
            _ => {
                return None;
            },
        }
        fill(&mut self.frame, Ink::White);
        turn_landscape(&mut self.frame);
        self.draw_text(input.plant_name.as_str(), NAME_X, NAME_Y);

        let mut moisture = input.soil_moisture.fixed2();
        moisture.append("%");
        let mut light = input.light_intensity.fixed2();
        light.append(" lux");
        proof {
            reveal_strlit("%");
            reveal_strlit(" lux");
            assert(moisture@ =~= moisture_text(input.soil_moisture));
            assert(light@ =~= light_text(input.light_intensity));
            lemma_field_texts_fit(input.soil_moisture);
            lemma_field_texts_fit(input.light_intensity);
        }
        self.draw_text(moisture.as_str(), MOISTURE_X, MOISTURE_Y);
        self.draw_text(light.as_str(), LIGHT_X, LIGHT_Y);

        self.phase = RenderPhase::Updating;
        Some(PanelCommand::UpdateFrame { buffer: copy_frame(&self.frame) })
    }

    /// Goes on with the render after the command handed out last was carried
    /// out (`delivered`) or failed. A failure ends the render at once.
    pub fn advance(&mut self, delivered: bool) -> (step: RenderStep)
        ensures
            final(self).phase() == phase_after(old(self).phase(), delivered),
            step@ == step_after(old(self).phase(), delivered),
            final(self).frame() == old(self).frame(),
            final(self).turns() == old(self).turns(),
    {
        match self.phase {
            RenderPhase::Idle => RenderStep::Done,
            RenderPhase::Updating => {
                if delivered {
                    self.phase = RenderPhase::Latching;
                    RenderStep::Send(PanelCommand::DisplayFrame)
                } else {
                    self.phase = RenderPhase::Idle;
                    RenderStep::Failed
                }
            },
            RenderPhase::Latching => {
                if delivered {
                    self.phase = RenderPhase::Settling;
                    RenderStep::Send(PanelCommand::Settle { millis: PANEL_SETTLE_MS })
                } else {
                    self.phase = RenderPhase::Idle;
                    RenderStep::Failed
                }
            },
            RenderPhase::Settling => {
                self.phase = RenderPhase::Idle;
                if delivered {
                    RenderStep::Done
                } else {
                    RenderStep::Failed
                }
            },
        }
    }

    /// The phase of the render.
    pub fn current_phase(&self) -> (phase: RenderPhase)
        ensures
            phase == self.phase(),
    {
        self.phase
    }

    /// Whether no render is in progress.
    pub fn is_idle(&self) -> (idle: bool)
        ensures
            idle == (self.phase() == RenderPhase::Idle),
    {
        match self.phase {
            RenderPhase::Idle => true,
            _ => false,
        }
    }

    /// A copy of the frame.
    pub fn buffer(&self) -> (bytes: Vec<u8>)
        ensures
            bytes@ == self.frame(),
    {
        copy_frame(&self.frame)
    }
}

} // verus!
