//! The acquisition-publish cycle.
//!
//! One cycle reads every configured sensor in turn, publishes each reading as
//! soon as it is there, renders the snapshot once and sleeps. Reading,
//! publishing, driving the panel and sleeping are the caller's work:
//! [`SensorLoop::step`] takes what happened to the action handed out last and
//! answers with the next action. [`next`] is the whole behaviour.

use crate::calibration::FULL_SCALE;
use crate::config::AppConfig;
use crate::measure::Measure;
use crate::plant_display::{
    phase_after, rendered_frame, step_after, DisplayInput, DisplayInputView, PanelCommand,
    PanelCommandView, PlantDisplay, RenderPhase, RenderStep, RenderStepView, MAX_TEXT_CHARS,
};
use crate::publisher::message::{payload_text, PublishMessage, PublishMessageView};
use crate::publisher::sensor_config::SensorConfig;
use crate::sensor::{SensorReading, SensorType};
use vstd::prelude::*;
use vstd::string::*;

verus! {

/// Milliseconds between two cycles unless the caller chooses otherwise.
pub const DEFAULT_INTERVAL_MS: u64 = 500;

/// One configured sensor: where it publishes and what it measures. The sensor
/// itself stays with the caller, who reads it when asked for the slot's index.
#[derive(Debug, PartialEq, Eq)]
pub struct SensorSlot {
    pub config: SensorConfig,
    pub kind: SensorType,
}

pub struct SensorSlotView {
    pub topic: Seq<char>,
    pub kind: SensorType,
}

impl View for SensorSlot {
    type V = SensorSlotView;

    open spec fn view(&self) -> SensorSlotView {
        SensorSlotView { topic: self.config.topic@, kind: self.kind }
    }
}

/// Where the cycle stands: which outcome the loop is waiting for.
#[derive(Clone, Copy, Debug, PartialEq, Eq, Structural)]
pub enum LoopPhase {
    /// Nothing was asked for yet.
    Ready,
    /// The caller reads the sensor of this slot.
    Reading { sensor: usize },
    /// The caller publishes the reading of this slot.
    Publishing { sensor: usize },
    /// The caller carries out a panel command.
    Rendering,
    /// The caller sleeps until the next cycle.
    Sleeping,
}

/// What happened to the action handed out last.
#[derive(Debug, PartialEq, Eq)]
pub enum LoopEvent {
    /// The sensor was read and gave these channels.
    Reading(SensorReading),
    /// The action was carried out.
    Done,
    /// The action failed.
    Failed,
}

pub enum LoopEventView {
    Reading(Seq<Measure>),
    Done,
    Failed,
}

impl View for LoopEvent {
    type V = LoopEventView;

    open spec fn view(&self) -> LoopEventView {
        match self {
            LoopEvent::Reading(channels) => LoopEventView::Reading(channels@),
            LoopEvent::Done => LoopEventView::Done,
            LoopEvent::Failed => LoopEventView::Failed,
        }
    }
}

/// What the caller does next.
#[derive(Debug, PartialEq, Eq)]
pub enum LoopAction {
    /// Read the sensor of this slot.
    Read { sensor: usize },
    /// Hand this message to the publish sink.
    Publish(PublishMessage),
    /// Carry out this panel command.
    Panel(PanelCommand),
    /// Sleep for this long.
    Sleep { millis: u64 },
}

pub enum LoopActionView {
    Read { sensor: usize },
    Publish(PublishMessageView),
    Panel(PanelCommandView),
    Sleep { millis: u64 },
}

impl View for LoopAction {
    type V = LoopActionView;

    open spec fn view(&self) -> LoopActionView {
        match self {
            LoopAction::Read { sensor } => LoopActionView::Read { sensor: *sensor },
            LoopAction::Publish(message) => LoopActionView::Publish(message@),
            LoopAction::Panel(command) => LoopActionView::Panel(command@),
            LoopAction::Sleep { millis } => LoopActionView::Sleep { millis: *millis },
        }
    }
}

/// Why a loop could not be set up.
#[derive(Clone, Copy, Debug, PartialEq, Eq, Structural)]
pub enum SetupError {
    /// The plant name is longer than the renderer takes.
    PlantNameTooLong,
    /// The display is in the middle of a render.
    DisplayBusy,
}

/// `value` brought into the range of a percentage, 0 to 100.
pub open spec fn clamp_percent(value: Measure) -> Measure {
    if value.hundredths < 0 {
        Measure { hundredths: 0 }
    } else if value.hundredths > FULL_SCALE {
        Measure { hundredths: FULL_SCALE }
    } else {
        value
    }
}

/// What is stored and published when a sensor of `kind` reports `value`: a
/// soil moisture is brought into 0 to 100 first, anything else is taken as it
/// is.
pub open spec fn accepted(kind: SensorType, value: Measure) -> Measure {
    match kind {
        SensorType::SoilHumiditySensor => clamp_percent(value),
        _ => value,
    }
}

/// The snapshot after `value` of a sensor of `kind` went into `input`: light
/// and soil moisture each have their field, any other kind is not shown.
pub open spec fn routed(input: DisplayInputView, kind: SensorType, value: Measure)
    -> DisplayInputView {
    match kind {
        SensorType::LightIntensitySensor => DisplayInputView { light_intensity: value, ..input },
        SensorType::SoilHumiditySensor => DisplayInputView { soil_moisture: value, ..input },
        SensorType::AirSensor => input,
    }
}

/// The first channel of what a read gave, if there is one. A read that
/// failed counts as one that gave nothing.
pub open spec fn first_channel_of(event: LoopEventView) -> Option<Measure> {
    match event {
        LoopEventView::Reading(channels) => if channels.len() > 0 {
            Some(channels[0])
        } else {
            None
        },
        _ => None,
    }
}

/// Whether `event` says that a command went through. Only `Failed` says it
/// did not.
pub open spec fn delivered(event: LoopEventView) -> bool {
    !(event is Failed)
}

/// What the cycle looks like from outside.
pub struct SensorLoopView {
    pub slots: Seq<SensorSlotView>,
    /// The snapshot that is rendered at the end of the cycle.
    pub input: DisplayInputView,
    pub frame: Seq<u8>,
    pub turns: int,
    pub render: RenderPhase,
    pub phase: LoopPhase,
    pub interval_ms: u64,
}

/// What holds of every loop: a slot that is waited for exists, the renderer
/// is busy exactly while the loop is rendering, the plant name can be drawn,
/// and the soil moisture in the snapshot is a percentage.
pub open spec fn loop_wf(s: SensorLoopView) -> bool {
    &&& s.phase matches LoopPhase::Reading { sensor } ==> sensor < s.slots.len()
    &&& s.phase matches LoopPhase::Publishing { sensor } ==> sensor < s.slots.len()
    &&& (s.phase == LoopPhase::Rendering) <==> (s.render != RenderPhase::Idle)
    &&& s.input.plant_name.len() <= MAX_TEXT_CHARS
    &&& 0 <= s.input.soil_moisture.hundredths <= FULL_SCALE
}

/// The loop turns to slot `sensor`: it asks for that sensor to be read, or,
/// when every slot has had its turn, renders the snapshot and hands out the
/// frame.
pub open spec fn turn_to(s: SensorLoopView, sensor: int) -> (SensorLoopView, LoopActionView) {
    if sensor < s.slots.len() {
        (
            SensorLoopView { phase: LoopPhase::Reading { sensor: sensor as usize }, ..s },
            LoopActionView::Read { sensor: sensor as usize },
        )
    } else {
        (
            SensorLoopView {
                frame: rendered_frame(s.input),
                turns: 1,
                render: RenderPhase::Updating,
                phase: LoopPhase::Rendering,
                ..s
            },
            LoopActionView::Panel(
                PanelCommandView::UpdateFrame { buffer: rendered_frame(s.input) },
            ),
        )
    }
}

/// The loop after `event`, and the action it answers with.
///
/// - `Ready`, `Sleeping`: a cycle begins with the first slot, whatever the
///   event.
/// - `Reading`: a read that gave a first channel stores it in the snapshot
///   and has it published; any other event is a sensor fault, which leaves
///   the snapshot alone, publishes nothing and moves on to the next slot.
/// - `Publishing`: the next slot has its turn, whether the sink took the
///   message or not.
/// - `Rendering`: the renderer goes on; when it is done or has failed, the
///   loop sleeps.
pub open spec fn next(s: SensorLoopView, event: LoopEventView) -> (SensorLoopView, LoopActionView) {
    match s.phase {
        LoopPhase::Ready | LoopPhase::Sleeping => turn_to(s, 0),
        LoopPhase::Reading { sensor } => match first_channel_of(event) {
            Some(raw) => {
                let slot = s.slots[sensor as int];
                let value = accepted(slot.kind, raw);
                (
                    SensorLoopView {
                        input: routed(s.input, slot.kind, value),
                        phase: LoopPhase::Publishing { sensor },
                        ..s
                    },
                    LoopActionView::Publish(
                        PublishMessageView { topic: slot.topic, payload: payload_text(value) },
                    ),
                )
            },
            None => turn_to(s, sensor + 1),
        },
        LoopPhase::Publishing { sensor } => turn_to(s, sensor + 1),
        LoopPhase::Rendering => match step_after(s.render, delivered(event)) {
            RenderStepView::Send(command) => (
                SensorLoopView { render: phase_after(s.render, delivered(event)), ..s },
                LoopActionView::Panel(command),
            ),
            _ => (
                SensorLoopView { render: RenderPhase::Idle, phase: LoopPhase::Sleeping, ..s },
                LoopActionView::Sleep { millis: s.interval_ms },
            ),
        },
    }
}

/// The view of each slot.
pub open spec fn slot_views(slots: Seq<SensorSlot>) -> Seq<SensorSlotView> {
    slots.map_values(|slot: SensorSlot| slot@)
}

/// The topic of the light sensor.
pub const LIGHT_TOPIC: &'static str = "sensor/light_intensity";

/// The topic of the soil moisture probe.
pub const MOISTURE_TOPIC: &'static str = "sensor/soil_moisture";

/// The slots of a node with its two standard sensors: the light sensor
/// first, then the soil moisture probe, each on its topic.
pub fn standard_slots() -> (slots: Vec<SensorSlot>)
    ensures
        slot_views(slots@) == seq![
            SensorSlotView { topic: LIGHT_TOPIC@, kind: SensorType::LightIntensitySensor },
            SensorSlotView { topic: MOISTURE_TOPIC@, kind: SensorType::SoilHumiditySensor },
        ],
{
    let slots = vec![
        SensorSlot {
            config: SensorConfig { topic: String::from_str(LIGHT_TOPIC) },
            kind: SensorType::LightIntensitySensor,
        },
        SensorSlot {
            config: SensorConfig { topic: String::from_str(MOISTURE_TOPIC) },
            kind: SensorType::SoilHumiditySensor,
        },
    ];
    assert(slot_views(slots@) =~= seq![
        SensorSlotView { topic: LIGHT_TOPIC@, kind: SensorType::LightIntensitySensor },
        SensorSlotView { topic: MOISTURE_TOPIC@, kind: SensorType::SoilHumiditySensor },
    ]);
    slots
}

/// The first channel of a reading, if it has one.
pub fn first_channel(channels: &SensorReading) -> (first: Option<Measure>)
    ensures
        first == first_channel_of(LoopEventView::Reading(channels@)),
{
    if channels.len() > 0 {
        Some(channels[0])
    } else {
        None
    }
}

/// What is stored and published when a sensor of `kind` reports `value`.
pub fn accept(kind: SensorType, value: Measure) -> (kept: Measure)
    ensures
        kept == accepted(kind, value),
{
    match kind {
        SensorType::SoilHumiditySensor => {
            if value.hundredths < 0 {
                Measure { hundredths: 0 }
            } else if value.hundredths > FULL_SCALE {
                Measure { hundredths: FULL_SCALE }
            } else {
                value
            }
        },
        _ => value,
    }
}

/// Stores `value` of a sensor of `kind` in the snapshot.
pub fn route(input: &mut DisplayInput, kind: SensorType, value: Measure)
    ensures
        final(input)@ == routed(old(input)@, kind, value),
{
    match kind {
        SensorType::LightIntensitySensor => {
            input.light_intensity = value;
        },
        SensorType::SoilHumiditySensor => {
            input.soil_moisture = value;
        },
        SensorType::AirSensor => {},
    }
}

/// The acquisition-publish cycle of one node.
pub struct SensorLoop {
    slots: Vec<SensorSlot>,
    input: DisplayInput,
    display: PlantDisplay,
    phase: LoopPhase,
    interval_ms: u64,
}

impl View for SensorLoop {
    type V = SensorLoopView;

    closed spec fn view(&self) -> SensorLoopView {
        SensorLoopView {
            slots: slot_views(self.slots@),
            input: self.input@,
            frame: self.display.frame(),
            turns: self.display.turns(),
            render: self.display.phase(),
            phase: self.phase,
            interval_ms: self.interval_ms,
        }
    }
}

impl SensorLoop {
    /// Whether the loop is one that `new` made and `step` moved on.
    pub open spec fn wf(&self) -> bool {
        loop_wf(self@)
    }

    /// A loop over `sensors` that shows the plant name of `app_config` on
    /// `plant_display` and sleeps `interval_ms` between cycles. Both readings
    /// start at zero. A plant name that cannot be drawn, or a display in the
    /// middle of a render, is refused here rather than in the first cycle.
    pub fn new(
        plant_display: PlantDisplay,
        sensors: Vec<SensorSlot>,
        app_config: &AppConfig,
        interval_ms: u64,
    ) -> (made: Result<Self, SetupError>)
        ensures
            match made {
                Ok(cycle) => {
                    &&& app_config.plant_display.plant_name@.len() <= MAX_TEXT_CHARS
                    &&& plant_display.phase() == RenderPhase::Idle
                    &&& cycle.wf()
                    &&& cycle@ == (SensorLoopView {
                        slots: slot_views(sensors@),
                        input: DisplayInputView {
                            plant_name: app_config.plant_display.plant_name@,
                            soil_moisture: Measure { hundredths: 0 },
                            light_intensity: Measure { hundredths: 0 },
                        },
                        frame: plant_display.frame(),
                        turns: plant_display.turns(),
                        render: RenderPhase::Idle,
                        phase: LoopPhase::Ready,
                        interval_ms,
                    })
                },
                Err(SetupError::PlantNameTooLong) => app_config.plant_display.plant_name@.len()
                    > MAX_TEXT_CHARS,
                Err(SetupError::DisplayBusy) => {
                    &&& app_config.plant_display.plant_name@.len() <= MAX_TEXT_CHARS
                    &&& plant_display.phase() != RenderPhase::Idle
                },
            },
    {
        let input = DisplayInput::new(app_config.plant_display.plant_name.clone());
        if !input.fits() {
            return Err(SetupError::PlantNameTooLong);
        }
        if !plant_display.is_idle() {
            return Err(SetupError::DisplayBusy);
        }
        Ok(
            SensorLoop {
                slots: sensors,
                input,
                display: plant_display,
                phase: LoopPhase::Ready,
                interval_ms,
            },
        )
    }

    /// Renders the snapshot and hands out the frame.
    fn render(&mut self) -> (action: LoopAction)
        requires
            old(self)@.render == RenderPhase::Idle,
            old(self)@.input.plant_name.len() <= MAX_TEXT_CHARS,
        ensures
            (final(self)@, action@) == turn_to(old(self)@, old(self)@.slots.len() as int),
    {
        let command = self.display.display_input(&self.input);
        self.phase = LoopPhase::Rendering;
        LoopAction::Panel(command.unwrap())
    }

    /// Begins a cycle: the first slot has its turn, or the render when there
    /// is no slot.
    fn begin(&mut self) -> (action: LoopAction)
        requires
            old(self)@.render == RenderPhase::Idle,
            old(self)@.input.plant_name.len() <= MAX_TEXT_CHARS,
        ensures
            (final(self)@, action@) == turn_to(old(self)@, 0),
    {
        if self.slots.len() > 0 {
            self.phase = LoopPhase::Reading { sensor: 0 };
            LoopAction::Read { sensor: 0 }
        } else {
            self.render()
        }
    }

    /// Moves on from slot `sensor`: the slot after it has its turn, or the
    /// render when it was the last.
    fn follow(&mut self, sensor: usize) -> (action: LoopAction)
        requires
            sensor < old(self)@.slots.len(),
            old(self)@.render == RenderPhase::Idle,
            old(self)@.input.plant_name.len() <= MAX_TEXT_CHARS,
        ensures
            (final(self)@, action@) == turn_to(old(self)@, sensor + 1),
    {
        if sensor < self.slots.len() - 1 {
            self.phase = LoopPhase::Reading { sensor: sensor + 1 };
            LoopAction::Read { sensor: sensor + 1 }
        } else {
            self.render()
        }
    }

    /// Takes what happened to the action handed out last and answers with
    /// the next action. The first call may bring any event.
    pub fn step(&mut self, event: LoopEvent) -> (action: LoopAction)
        requires
            old(self).wf(),
        ensures
            final(self).wf(),
            (final(self)@, action@) == next(old(self)@, event@),
    {
        match self.phase {
            LoopPhase::Ready | LoopPhase::Sleeping => self.begin(),
            LoopPhase::Reading { sensor } => {
                let first = match &event {
                    LoopEvent::Reading(channels) => first_channel(channels),
                    _ => None,
                };
                match first {
                    Some(raw) => {
                        let kind = self.slots[sensor].kind;
                        let value = accept(kind, raw);
                        route(&mut self.input, kind, value);
                        self.phase = LoopPhase::Publishing { sensor };
                        LoopAction::Publish(
                            PublishMessage::new(self.slots[sensor].config.topic.as_str(), value),
                        )
                    },
                    None => self.follow(sensor),
                }
            },
            LoopPhase::Publishing { sensor } => self.follow(sensor),
            LoopPhase::Rendering => {
                let went_through = match &event {
                    LoopEvent::Failed => false,
                    _ => true,
                };
                match self.display.advance(went_through) {
                    RenderStep::Send(command) => LoopAction::Panel(command),
                    _ => {
                        self.phase = LoopPhase::Sleeping;
                        LoopAction::Sleep { millis: self.interval_ms }
                    },
                }
            },
        }
    }

    /// The phase of the cycle.
    pub fn phase(&self) -> (phase: LoopPhase)
        ensures
            phase == self@.phase,
    {
        self.phase
    }

    /// The snapshot as it stands.
    pub fn display_input(&self) -> (input: &DisplayInput)
        ensures
            input@ == self@.input,
    {
        &self.input
    }

    /// How many sensors are configured.
    pub fn sensor_count(&self) -> (count: usize)
        ensures
            count == self@.slots.len(),
    {
        self.slots.len()
    }
}

} // verus!
