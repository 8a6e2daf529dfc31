//! What holds of the acquisition-publish cycle, step by step and over a
//! whole cycle.

use crate::calibration::FULL_SCALE;
use crate::plant_display::{
    rendered_frame, DisplayInputView, PanelCommandView, RenderPhase, PANEL_SETTLE_MS,
};
use crate::measure::Measure;
use crate::publisher::message::{payload_text, PublishMessageView};
use crate::sensor_loop::{
    accepted, first_channel_of, loop_wf, next, routed, turn_to, LoopActionView, LoopEventView,
    LoopPhase, SensorLoopView, SensorSlotView,
};
use vstd::prelude::*;

verus! {

/// A step leaves a loop what it was: well formed. In particular the soil
/// moisture in the snapshot stays within 0 to 100 % whatever the sensors
/// report, and the renderer is never asked to start while it is busy.
pub proof fn law_step_keeps_wf(s: SensorLoopView, event: LoopEventView)
    requires
        loop_wf(s),
    ensures
        loop_wf(next(s, event).0),
{
}

/// A step never touches the configuration: the slots, the plant name and the
/// interval stay.
pub proof fn law_step_keeps_configuration(s: SensorLoopView, event: LoopEventView)
    ensures
        next(s, event).0.slots == s.slots,
        next(s, event).0.input.plant_name == s.input.plant_name,
        next(s, event).0.interval_ms == s.interval_ms,
{
}

/// A sensor that gives nothing, or fails, leaves the snapshot as it was and
/// has nothing published; the loop goes on to the next slot, or to the
/// render when the slot was the last.
pub proof fn law_fault_skips_sensor(s: SensorLoopView, event: LoopEventView, sensor: usize)
    requires
        loop_wf(s),
        s.phase == (LoopPhase::Reading { sensor }),
        first_channel_of(event) is None,
    ensures
        next(s, event).0.input == s.input,
        !(next(s, event).1 is Publish),
        sensor + 1 < s.slots.len() ==> {
            &&& next(s, event).0.phase == (LoopPhase::Reading { sensor: (sensor + 1) as usize })
            &&& next(s, event).1 == (LoopActionView::Read { sensor: (sensor + 1) as usize })
        },
        sensor + 1 == s.slots.len() ==> {
            &&& next(s, event).0.phase == LoopPhase::Rendering
            &&& next(s, event).1 == LoopActionView::Panel(
                PanelCommandView::UpdateFrame { buffer: rendered_frame(s.input) },
            )
        },
{
}

/// A reading with a first channel is stored by the kind of its slot and
/// published on the topic of its slot at once; the other field of the
/// snapshot stays.
pub proof fn law_reading_is_stored_and_published(
    s: SensorLoopView,
    channels: Seq<Measure>,
    sensor: usize,
)
    requires
        loop_wf(s),
        s.phase == (LoopPhase::Reading { sensor }),
        channels.len() > 0,
    ensures
        ({
            let slot = s.slots[sensor as int];
            let value = accepted(slot.kind, channels[0]);
            let after = next(s, LoopEventView::Reading(channels));
            &&& after.0.input == routed(s.input, slot.kind, value)
            &&& after.0.phase == (LoopPhase::Publishing { sensor })
            &&& after.1 == LoopActionView::Publish(
                PublishMessageView { topic: slot.topic, payload: payload_text(value) },
            )
            &&& 0 <= after.0.input.soil_moisture.hundredths <= FULL_SCALE
        }),
{
}

/// What became of a publish changes nothing: the loop goes on in the same
/// way whether the sink took the message or not.
pub proof fn law_publish_outcome_is_ignored(
    s: SensorLoopView,
    one: LoopEventView,
    other: LoopEventView,
    sensor: usize,
)
    requires
        s.phase == (LoopPhase::Publishing { sensor }),
    ensures
        next(s, one) == next(s, other),
        next(s, one).0.input == s.input,
{
}

/// A render that goes through takes three commands: the frame, the latch and
/// the settling delay. Then the loop sleeps for its interval with the
/// renderer idle again.
pub proof fn law_render_runs_to_sleep(s: SensorLoopView)
    requires
        loop_wf(s),
        s.phase == LoopPhase::Rendering,
        s.render == RenderPhase::Updating,
    ensures
        ({
            let latch = next(s, LoopEventView::Done);
            let settle = next(latch.0, LoopEventView::Done);
            let sleep = next(settle.0, LoopEventView::Done);
            &&& latch.1 == LoopActionView::Panel(PanelCommandView::DisplayFrame)
            &&& settle.1 == LoopActionView::Panel(
                PanelCommandView::Settle { millis: PANEL_SETTLE_MS },
            )
            &&& sleep.1 == (LoopActionView::Sleep { millis: s.interval_ms })
            &&& sleep.0.phase == LoopPhase::Sleeping
            &&& sleep.0.render == RenderPhase::Idle
            &&& sleep.0.input == s.input
            &&& sleep.0.frame == s.frame
        }),
{
}

/// A panel command that fails ends the render at once: the loop sleeps, the
/// renderer is idle, and the snapshot is kept for the next cycle.
pub proof fn law_render_failure_ends_render(s: SensorLoopView)
    requires
        loop_wf(s),
        s.phase == LoopPhase::Rendering,
    ensures
        next(s, LoopEventView::Failed).1 == (LoopActionView::Sleep { millis: s.interval_ms }),
        next(s, LoopEventView::Failed).0.phase == LoopPhase::Sleeping,
        next(s, LoopEventView::Failed).0.render == RenderPhase::Idle,
        next(s, LoopEventView::Failed).0.input == s.input,
{
}

/// After the sleep the next cycle begins with the first slot, and the
/// snapshot of the last cycle is carried over.
pub proof fn law_sleep_ends_in_next_cycle(s: SensorLoopView, event: LoopEventView)
    requires
        s.phase == LoopPhase::Sleeping,
    ensures
        next(s, event) == turn_to(s, 0),
        s.slots.len() > 0 ==> next(s, event).0.input == s.input && next(s, event).1 == (
        LoopActionView::Read { sensor: 0 }),
{
}

/// The loop after `events` came in one after the other, and the actions it
/// answered with, one for each event.
pub open spec fn run(s: SensorLoopView, events: Seq<LoopEventView>) -> (
    SensorLoopView,
    Seq<LoopActionView>,
)
    decreases events.len(),
{
    if events.len() == 0 {
        (s, Seq::<LoopActionView>::empty())
    } else {
        let before = run(s, events.drop_last());
        let last = next(before.0, events.last());
        (last.0, before.1.push(last.1))
    }
}

/// The event that reports what became of a publish.
pub open spec fn ack_event(taken: bool) -> LoopEventView {
    if taken {
        LoopEventView::Done
    } else {
        LoopEventView::Failed
    }
}

/// The first channel of a reading, if it has one.
pub open spec fn first_of(channels: Seq<Measure>) -> Option<Measure> {
    first_channel_of(LoopEventView::Reading(channels))
}

/// What the caller reports while the slots from `from` on have their turn,
/// when slot `i` reads `readings[i]` and the sink takes its message or not as
/// `acks[i]` says: for each slot the reading, and after a reading with a
/// first channel the outcome of the publish.
pub open spec fn pass_events(
    readings: Seq<Seq<Measure>>,
    acks: Seq<bool>,
    from: int,
) -> Seq<LoopEventView>
    decreases readings.len() - from,
{
    if from < 0 || from >= readings.len() {
        Seq::<LoopEventView>::empty()
    } else {
        let rest = pass_events(readings, acks, from + 1);
        match first_of(readings[from]) {
            Some(_) => seq![LoopEventView::Reading(readings[from])] + (seq![ack_event(acks[from])]
                + rest),
            None => seq![LoopEventView::Reading(readings[from])] + rest,
        }
    }
}

/// The snapshot `input` after the readings of the slots from `from` on went
/// into it, each by the kind of its slot.
pub open spec fn snapshot_after(
    input: DisplayInputView,
    slots: Seq<SensorSlotView>,
    readings: Seq<Seq<Measure>>,
    from: int,
) -> DisplayInputView
    decreases readings.len() - from,
{
    if from < 0 || from >= readings.len() {
        input
    } else {
        let stored = match first_of(readings[from]) {
            Some(raw) => routed(input, slots[from].kind, accepted(slots[from].kind, raw)),
            None => input,
        };
        snapshot_after(stored, slots, readings, from + 1)
    }
}

/// What the loop asks for when slot `sensor` is next: a read of it, or the
/// frame that shows `input` when no slot is left.
pub open spec fn onward(slots: Seq<SensorSlotView>, input: DisplayInputView, sensor: int)
    -> LoopActionView {
    if sensor < slots.len() {
        LoopActionView::Read { sensor: sensor as usize }
    } else {
        LoopActionView::Panel(PanelCommandView::UpdateFrame { buffer: rendered_frame(input) })
    }
}

/// What the loop answers to `pass_events(readings, acks, from)` when the
/// snapshot is `input` as slot `from` is read: after a reading with a first
/// channel the message that carries it, and then in either case what is next,
/// the read of the following slot or the frame.
pub open spec fn pass_answers(
    slots: Seq<SensorSlotView>,
    input: DisplayInputView,
    readings: Seq<Seq<Measure>>,
    from: int,
) -> Seq<LoopActionView>
    decreases readings.len() - from,
{
    if from < 0 || from >= readings.len() {
        Seq::<LoopActionView>::empty()
    } else {
        match first_of(readings[from]) {
            Some(raw) => {
                let value = accepted(slots[from].kind, raw);
                let stored = routed(input, slots[from].kind, value);
                seq![
                    LoopActionView::Publish(
                        PublishMessageView {
                            topic: slots[from].topic,
                            payload: payload_text(value),
                        },
                    ),
                ] + (seq![onward(slots, stored, from + 1)] + pass_answers(
                    slots,
                    stored,
                    readings,
                    from + 1,
                ))
            },
            None => seq![onward(slots, input, from + 1)] + pass_answers(
                slots,
                input,
                readings,
                from + 1,
            ),
        }
    }
}

/// Running over an event and then over more events is running over all of
/// them.
pub proof fn lemma_run_first(s: SensorLoopView, event: LoopEventView, rest: Seq<LoopEventView>)
    ensures
        run(s, seq![event] + rest).0 == run(next(s, event).0, rest).0,
        run(s, seq![event] + rest).1 == seq![next(s, event).1] + run(next(s, event).0, rest).1,
    decreases rest.len(),
{
    let all = seq![event] + rest;
    if rest.len() == 0 {
        assert(all.drop_last() =~= Seq::<LoopEventView>::empty());
        assert(all.last() == event);
        assert(run(s, all.drop_last()).1 =~= Seq::<LoopActionView>::empty());
        assert(run(s, all).1 =~= seq![next(s, event).1] + run(next(s, event).0, rest).1);
    } else {
        lemma_run_first(s, event, rest.drop_last());
        assert(all.drop_last() =~= seq![event] + rest.drop_last());
        assert(all.last() == rest.last());
        assert(run(s, all).1 =~= seq![next(s, event).1] + run(next(s, event).0, rest).1);
    }
}

/// The sensor pass from slot `from` on, for a loop that waits for the read
/// of that slot.
pub proof fn lemma_sensor_pass(
    s: SensorLoopView,
    readings: Seq<Seq<Measure>>,
    acks: Seq<bool>,
    from: int,
)
    requires
        loop_wf(s),
        0 <= from < s.slots.len(),
        s.phase == (LoopPhase::Reading { sensor: from as usize }),
        readings.len() == s.slots.len(),
        acks.len() == s.slots.len(),
        s.slots.len() <= usize::MAX,
    ensures
        ({
            let end = run(s, pass_events(readings, acks, from));
            let shown = snapshot_after(s.input, s.slots, readings, from);
            &&& end.1 == pass_answers(s.slots, s.input, readings, from)
            &&& end.0 == (SensorLoopView {
                input: shown,
                frame: rendered_frame(shown),
                turns: 1,
                render: RenderPhase::Updating,
                phase: LoopPhase::Rendering,
                ..s
            })
        }),
    decreases s.slots.len() - from, 1int,
{
    let reading = LoopEventView::Reading(readings[from]);
    let rest = pass_events(readings, acks, from + 1);
    let read = next(s, reading);
    match first_of(readings[from]) {
        Some(raw) => {
            let ack = ack_event(acks[from]);
            let moved = next(read.0, ack);
            let stored = routed(s.input, s.slots[from].kind, accepted(s.slots[from].kind, raw));
            lemma_run_first(s, reading, seq![ack] + rest);
            lemma_run_first(read.0, ack, rest);
            assert(read.0.input == stored);
            assert(moved == turn_to(read.0, from + 1));
            assert(moved.1 == onward(s.slots, stored, from + 1));
            lemma_rest_of_pass(s, moved.0, stored, readings, acks, from);
        },
        None => {
            lemma_run_first(s, reading, rest);
            assert(read == turn_to(s, from + 1));
            assert(read.1 == onward(s.slots, s.input, from + 1));
            lemma_rest_of_pass(s, read.0, s.input, readings, acks, from);
        },
    }
}

/// The rest of the sensor pass once slot `from` is dealt with and `stored`
/// is the snapshot: `moved` is the loop that has turned to the next slot.
proof fn lemma_rest_of_pass(
    s: SensorLoopView,
    moved: SensorLoopView,
    stored: DisplayInputView,
    readings: Seq<Seq<Measure>>,
    acks: Seq<bool>,
    from: int,
)
    requires
        loop_wf(s),
        0 <= from < s.slots.len(),
        readings.len() == s.slots.len(),
        acks.len() == s.slots.len(),
        s.slots.len() <= usize::MAX,
        stored.plant_name == s.input.plant_name,
        0 <= stored.soil_moisture.hundredths <= FULL_SCALE,
        s.render == RenderPhase::Idle,
        moved == turn_to(SensorLoopView { input: stored, ..s }, from + 1).0,
    ensures
        ({
            let end = run(moved, pass_events(readings, acks, from + 1));
            let shown = snapshot_after(stored, s.slots, readings, from + 1);
            &&& end.1 == pass_answers(s.slots, stored, readings, from + 1)
            &&& end.0 == (SensorLoopView {
                input: shown,
                frame: rendered_frame(shown),
                turns: 1,
                render: RenderPhase::Updating,
                phase: LoopPhase::Rendering,
                ..s
            })
        }),
    decreases s.slots.len() - from, 0int,
{
    let rest = pass_events(readings, acks, from + 1);
    if from + 1 < s.slots.len() {
        lemma_sensor_pass(moved, readings, acks, from + 1);
    } else {
        assert(rest =~= Seq::<LoopEventView>::empty());
        assert(run(moved, rest).1 =~= Seq::<LoopActionView>::empty());
        assert(pass_answers(s.slots, stored, readings, from + 1) =~= Seq::<
            LoopActionView,
        >::empty());
    }
}

/// One whole sensor pass. A loop that is ready or asleep is given any event,
/// then for each slot the reading `readings[i]` and, where that has a first
/// channel, the outcome `acks[i]` of the publish. Then:
///
/// - the loop asked for every slot to be read, in order;
/// - each reading with a first channel was published right after its read
///   and before the next read, and nothing was published for the others;
/// - what became of a publish made no difference;
/// - the last answer, and no other, is the frame, and it shows the snapshot
///   with every reading of this cycle in it;
/// - a field without a reading in this cycle shows what it showed before.
pub proof fn law_sensor_pass(
    s: SensorLoopView,
    kick: LoopEventView,
    readings: Seq<Seq<Measure>>,
    acks: Seq<bool>,
)
    requires
        loop_wf(s),
        s.phase == LoopPhase::Ready || s.phase == LoopPhase::Sleeping,
        readings.len() == s.slots.len(),
        acks.len() == s.slots.len(),
        s.slots.len() <= usize::MAX,
    ensures
        ({
            let end = run(s, seq![kick] + pass_events(readings, acks, 0));
            let shown = snapshot_after(s.input, s.slots, readings, 0);
            &&& end.1 == seq![onward(s.slots, s.input, 0)] + pass_answers(
                s.slots,
                s.input,
                readings,
                0,
            )
            &&& end.0 == (SensorLoopView {
                input: shown,
                frame: rendered_frame(shown),
                turns: 1,
                render: RenderPhase::Updating,
                phase: LoopPhase::Rendering,
                ..s
            })
        }),
{
    let events = pass_events(readings, acks, 0);
    lemma_run_first(s, kick, events);
    if s.slots.len() > 0 {
        lemma_sensor_pass(next(s, kick).0, readings, acks, 0);
    } else {
        assert(events =~= Seq::<LoopEventView>::empty());
        assert(pass_answers(s.slots, s.input, readings, 0) =~= Seq::<LoopActionView>::empty());
    }
}

/// Running over some events and then over more events is running over all
/// of them.
pub proof fn lemma_run_append(
    s: SensorLoopView,
    first: Seq<LoopEventView>,
    then: Seq<LoopEventView>,
)
    ensures
        run(s, first + then).0 == run(run(s, first).0, then).0,
        run(s, first + then).1 == run(s, first).1 + run(run(s, first).0, then).1,
    decreases then.len(),
{
    let all = first + then;
    if then.len() == 0 {
        assert(all =~= first);
        assert(run(s, all).1 =~= run(s, first).1 + run(run(s, first).0, then).1);
    } else {
        lemma_run_append(s, first, then.drop_last());
        assert(all.drop_last() =~= first + then.drop_last());
        assert(all.last() == then.last());
        assert(run(s, all).1 =~= run(s, first).1 + run(run(s, first).0, then).1);
    }
}

/// In a sensor pass the frame is asked for once, at the very end: every
/// answer before the last is a read or a publish.
pub proof fn law_one_frame_per_pass(
    slots: Seq<SensorSlotView>,
    input: DisplayInputView,
    readings: Seq<Seq<Measure>>,
    from: int,
)
    requires
        0 <= from < slots.len(),
        readings.len() == slots.len(),
    ensures
        ({
            let answers = pass_answers(slots, input, readings, from);
            &&& answers.len() > 0
            &&& answers.last() == LoopActionView::Panel(
                PanelCommandView::UpdateFrame {
                    buffer: rendered_frame(snapshot_after(input, slots, readings, from)),
                },
            )
            &&& forall|i: int|
                0 <= i < answers.len() - 1 ==> (#[trigger] answers[i] is Read)
                    || answers[i] is Publish
        }),
    decreases slots.len() - from,
{
    let answers = pass_answers(slots, input, readings, from);
    let stored = match first_of(readings[from]) {
        Some(raw) => routed(input, slots[from].kind, accepted(slots[from].kind, raw)),
        None => input,
    };
    let rest = pass_answers(slots, stored, readings, from + 1);
    let skip: int = match first_of(readings[from]) {
        Some(_) => 2,
        None => 1,
    };
    assert(answers.len() == skip + rest.len());
    assert(forall|i: int| 0 <= i < rest.len() ==> answers[skip + i] == rest[i]);
    if from + 1 < slots.len() {
        law_one_frame_per_pass(slots, stored, readings, from + 1);
        assert(answers.last() == rest.last());
        assert forall|i: int| 0 <= i < answers.len() - 1 implies (#[trigger] answers[i] is Read)
            || answers[i] is Publish by {
            if i >= skip {
                assert(answers[i] == rest[i - skip]);
            }
        }
    } else {
        assert(rest.len() == 0);
    }
}

/// One whole cycle that goes through. A loop that is ready or asleep is given
/// any event, then what the sensor pass brings, then three times that the
/// panel did as it was told. The answers are those of the sensor pass, then
/// the latch, the settling delay and the sleep; at the end the loop is asleep
/// with the renderer idle, the frame shows the snapshot, and the snapshot
/// holds every reading of the cycle and is kept for the next.
pub proof fn law_whole_cycle(
    s: SensorLoopView,
    kick: LoopEventView,
    readings: Seq<Seq<Measure>>,
    acks: Seq<bool>,
)
    requires
        loop_wf(s),
        s.phase == LoopPhase::Ready || s.phase == LoopPhase::Sleeping,
        readings.len() == s.slots.len(),
        acks.len() == s.slots.len(),
        s.slots.len() <= usize::MAX,
    ensures
        ({
            let pass = seq![kick] + pass_events(readings, acks, 0);
            let panel = seq![LoopEventView::Done, LoopEventView::Done, LoopEventView::Done];
            let end = run(s, pass + panel);
            let shown = snapshot_after(s.input, s.slots, readings, 0);
            &&& end.1 == seq![onward(s.slots, s.input, 0)] + pass_answers(
                s.slots,
                s.input,
                readings,
                0,
            ) + seq![
                LoopActionView::Panel(PanelCommandView::DisplayFrame),
                LoopActionView::Panel(PanelCommandView::Settle { millis: PANEL_SETTLE_MS }),
                LoopActionView::Sleep { millis: s.interval_ms },
            ]
            &&& end.0 == (SensorLoopView {
                input: shown,
                frame: rendered_frame(shown),
                turns: 1,
                render: RenderPhase::Idle,
                phase: LoopPhase::Sleeping,
                ..s
            })
            &&& loop_wf(end.0)
        }),
{
    let pass = seq![kick] + pass_events(readings, acks, 0);
    let panel = seq![LoopEventView::Done, LoopEventView::Done, LoopEventView::Done];
    law_sensor_pass(s, kick, readings, acks);
    lemma_run_append(s, pass, panel);
    let rendering = run(s, pass).0;
    lemma_snapshot_stays_wf(s.input, s.slots, readings, 0);
    law_render_runs_to_sleep(rendering);
    let latch = next(rendering, LoopEventView::Done);
    let settle = next(latch.0, LoopEventView::Done);
    let tail = seq![LoopEventView::Done, LoopEventView::Done];
    lemma_run_first(rendering, LoopEventView::Done, tail);
    assert(panel =~= seq![LoopEventView::Done] + tail);
    lemma_run_first(latch.0, LoopEventView::Done, seq![LoopEventView::Done]);
    assert(tail =~= seq![LoopEventView::Done] + seq![LoopEventView::Done]);
    lemma_run_first(settle.0, LoopEventView::Done, Seq::<LoopEventView>::empty());
    assert(seq![LoopEventView::Done] =~= seq![LoopEventView::Done] + Seq::<
        LoopEventView,
    >::empty());
    assert(run(rendering, panel).1 =~= seq![
        LoopActionView::Panel(PanelCommandView::DisplayFrame),
        LoopActionView::Panel(PanelCommandView::Settle { millis: PANEL_SETTLE_MS }),
        LoopActionView::Sleep { millis: s.interval_ms },
    ]);
}

/// Readings that go into a snapshot leave its plant name alone and its soil
/// moisture a percentage.
pub proof fn lemma_snapshot_stays_wf(
    input: DisplayInputView,
    slots: Seq<SensorSlotView>,
    readings: Seq<Seq<Measure>>,
    from: int,
)
    requires
        0 <= input.soil_moisture.hundredths <= FULL_SCALE,
    ensures
        snapshot_after(input, slots, readings, from).plant_name == input.plant_name,
        0 <= snapshot_after(input, slots, readings, from).soil_moisture.hundredths <= FULL_SCALE,
    decreases readings.len() - from,
{
    if 0 <= from < readings.len() {
        let stored = match first_of(readings[from]) {
            Some(raw) => routed(input, slots[from].kind, accepted(slots[from].kind, raw)),
            None => input,
        };
        lemma_snapshot_stays_wf(stored, slots, readings, from + 1);
    }
}

} // verus!
