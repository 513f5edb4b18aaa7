//! Laws of the dispatch table, stated over the mathematical model of the
//! state machine.

use vstd::prelude::*;
use crate::event::{InputEvent, OutputCommand};
use crate::ring::{UIElement, NUM_PRESETS};
use crate::state::{AppStateView, Effect, MAX_VOLUME};

verus! {

/// The state and the preset slots after processing `events` in order,
/// starting from `state` and `presets`.
pub open spec fn run(state: AppStateView, presets: Seq<Option<u32>>, events: Seq<InputEvent>) -> (
    AppStateView,
    Seq<Option<u32>>,
)
    decreases events.len(),
{
    if events.len() == 0 {
        (state, presets)
    } else {
        let (before, slots) = run(state, presets, events.drop_last());
        (before.after(events.last(), slots), before.presets_after(events.last(), slots))
    }
}

/// Whether `event` is a turn of the encoder.
pub open spec fn is_scroll(event: InputEvent) -> bool {
    event is ScrollUp || event is ScrollDown
}

/// `value` held to the range `0..=MAX_VOLUME`.
pub open spec fn clamp_volume(value: int) -> int {
    if value < 0 {
        0
    } else if value > MAX_VOLUME {
        MAX_VOLUME as int
    } else {
        value
    }
}

/// The state machine keeps its invariant on every event, and the preset
/// store keeps its size.
pub proof fn lemma_event_preserves_wf(
    state: AppStateView,
    event: InputEvent,
    presets: Seq<Option<u32>>,
)
    requires
        state.wf(),
        presets.len() == NUM_PRESETS,
    ensures
        state.after(event, presets).wf(),
        state.presets_after(event, presets).len() == NUM_PRESETS,
{
}

/// In a well-formed state every event falls under a rule of the dispatch
/// table.
pub proof fn lemma_dispatch_is_exhaustive(state: AppStateView, event: InputEvent)
    requires
        state.wf(),
    ensures
        !state.unmatched(event),
{
}

/// The state machine keeps its invariant over any run of events.
pub proof fn lemma_run_preserves_wf(
    state: AppStateView,
    presets: Seq<Option<u32>>,
    events: Seq<InputEvent>,
)
    requires
        state.wf(),
        presets.len() == NUM_PRESETS,
    ensures
        run(state, presets, events).0.wf(),
        run(state, presets, events).1.len() == NUM_PRESETS,
    decreases events.len(),
{
    if events.len() > 0 {
        lemma_run_preserves_wf(state, presets, events.drop_last());
        let (before, slots) = run(state, presets, events.drop_last());
        lemma_event_preserves_wf(before, events.last(), slots);
    }
}

/// While the volume control is selected, a turn of the encoder moves the
/// volume by one step held to `0..=MAX_VOLUME`, and a `SetVolume` command
/// with the new volume leaves exactly when the volume changed.
pub proof fn lemma_volume_step(state: AppStateView, event: InputEvent, presets: Seq<Option<u32>>)
    requires
        state.wf(),
        state.adjusting_volume(),
        is_scroll(event),
    ensures
        state.volume_after(event) == clamp_volume(
            state.volume + (if event is ScrollUp {
                1int
            } else {
                -1int
            }),
        ),
        0 <= state.volume_after(event) <= MAX_VOLUME,
        state.after(event, presets).adjusting_volume(),
        state.volume_after(event) != state.volume ==> state.effect_of(event, presets)
            == Effect::Command(OutputCommand::SetVolume(state.volume_after(event) as u8)),
        state.volume_after(event) == state.volume ==> state.effect_of(event, presets)
            == Effect::Nothing,
        state.after(event, presets) == (AppStateView {
            volume: state.volume_after(event) as u8,
            ..state
        }),
{
}

/// Under any run of encoder turns with the volume control selected, the
/// volume stays within `0..=MAX_VOLUME`, the volume control stays selected
/// and nothing else changes.
pub proof fn lemma_volume_stays_clamped(
    state: AppStateView,
    presets: Seq<Option<u32>>,
    events: Seq<InputEvent>,
)
    requires
        state.wf(),
        state.adjusting_volume(),
        forall|i: int| 0 <= i < events.len() ==> is_scroll(#[trigger] events[i]),
    ensures
        run(state, presets, events).0.volume <= MAX_VOLUME,
        run(state, presets, events).0 == (AppStateView {
            volume: run(state, presets, events).0.volume,
            ..state
        }),
        run(state, presets, events).1 == presets,
    decreases events.len(),
{
    if events.len() > 0 {
        let earlier = events.drop_last();
        lemma_volume_stays_clamped(state, presets, earlier);
        let (before, slots) = run(state, presets, earlier);
        assert(is_scroll(events[events.len() - 1]));
        lemma_volume_step(before, events.last(), slots);
    }
}

/// `count` turns upwards with the volume control selected raise the volume
/// by `count`, stopping at `MAX_VOLUME`.
pub proof fn lemma_volume_after_scrolling_up(
    state: AppStateView,
    presets: Seq<Option<u32>>,
    count: nat,
)
    requires
        state.wf(),
        state.adjusting_volume(),
    ensures
        run(state, presets, Seq::new(count, |i: int| InputEvent::ScrollUp)).0.volume
            == clamp_volume(state.volume + count),
    decreases count,
{
    let events = Seq::new(count, |i: int| InputEvent::ScrollUp);
    if count > 0 {
        let earlier = Seq::new((count - 1) as nat, |i: int| InputEvent::ScrollUp);
        assert(events.drop_last() == earlier);
        lemma_volume_after_scrolling_up(state, presets, (count - 1) as nat);
        lemma_volume_stays_clamped(state, presets, earlier);
    }
}

/// `count` turns downwards with the volume control selected lower the
/// volume by `count`, stopping at zero.
pub proof fn lemma_volume_after_scrolling_down(
    state: AppStateView,
    presets: Seq<Option<u32>>,
    count: nat,
)
    requires
        state.wf(),
        state.adjusting_volume(),
    ensures
        run(state, presets, Seq::new(count, |i: int| InputEvent::ScrollDown)).0.volume
            == clamp_volume(state.volume - count),
    decreases count,
{
    let events = Seq::new(count, |i: int| InputEvent::ScrollDown);
    if count > 0 {
        let earlier = Seq::new((count - 1) as nat, |i: int| InputEvent::ScrollDown);
        assert(events.drop_last() == earlier);
        lemma_volume_after_scrolling_down(state, presets, (count - 1) as nat);
        lemma_volume_stays_clamped(state, presets, earlier);
    }
}

/// Moving the cursor never touches the preset slots nor the frequency.
pub proof fn lemma_navigation_keeps_presets(
    state: AppStateView,
    presets: Seq<Option<u32>>,
    events: Seq<InputEvent>,
)
    requires
        state.wf(),
        presets.len() == NUM_PRESETS,
        !state.cursor_selected,
        forall|i: int| 0 <= i < events.len() ==> is_scroll(#[trigger] events[i]),
    ensures
        run(state, presets, events).1 == presets,
        run(state, presets, events).0 == (AppStateView {
            cursor_at: run(state, presets, events).0.cursor_at,
            ..state
        }),
    decreases events.len(),
{
    if events.len() > 0 {
        let earlier = events.drop_last();
        lemma_navigation_keeps_presets(state, presets, earlier);
        lemma_run_preserves_wf(state, presets, earlier);
        assert(is_scroll(events[events.len() - 1]));
    }
}

/// A frequency saved on a preset comes back: after a long press on the
/// preset `slot`, a short press on the same preset, in any later state and
/// as long as the slot was not overwritten, tunes to the saved frequency
/// and sends it to the tuner.
pub proof fn lemma_preset_round_trip(
    saving: AppStateView,
    recalling: AppStateView,
    presets: Seq<Option<u32>>,
    slot: u8,
)
    requires
        saving.wf(),
        presets.len() == NUM_PRESETS,
        saving.cursor_at == UIElement::Preset(slot),
        !saving.cursor_selected,
        recalling.wf(),
        recalling.cursor_at == UIElement::Preset(slot),
    ensures
        saving.effect_of(InputEvent::LongPress, presets) == (Effect::Persist {
            slot,
            freq_khz: saving.freq_khz,
        }),
        saving.after(InputEvent::LongPress, presets) == saving,
        ({
            let saved = saving.presets_after(InputEvent::LongPress, presets);
            &&& saved == presets.update(slot as int, Some(saving.freq_khz))
            &&& recalling.after(InputEvent::ShortPress, saved).freq_khz == saving.freq_khz
            &&& recalling.effect_of(InputEvent::ShortPress, saved) == Effect::Command(
                OutputCommand::SetFrequency(saving.freq_khz),
            )
        }),
{
}

/// Saving on a preset, walking the cursor away and back by any turns of the
/// encoder, and pressing the preset again restores the saved frequency,
/// whatever the tuner reported in between.
pub proof fn lemma_preset_survives_navigation(
    saving: AppStateView,
    presets: Seq<Option<u32>>,
    slot: u8,
    turns: Seq<InputEvent>,
    drifted: u32,
)
    requires
        saving.wf(),
        presets.len() == NUM_PRESETS,
        saving.cursor_at == UIElement::Preset(slot),
        !saving.cursor_selected,
        forall|i: int| 0 <= i < turns.len() ==> is_scroll(#[trigger] turns[i]),
        run(saving, presets, turns).0.cursor_at == UIElement::Preset(slot),
    ensures
        ({
            let saved = saving.presets_after(InputEvent::LongPress, presets);
            let (back, slots) = run(
                saving.after(InputEvent::LongPress, presets),
                saved,
                turns,
            );
            let tuned = back.after(InputEvent::ChangeFrequency(drifted), slots);
            &&& slots == saved
            &&& tuned.after(InputEvent::ShortPress, slots).freq_khz == saving.freq_khz
            &&& tuned.effect_of(InputEvent::ShortPress, slots) == Effect::Command(
                OutputCommand::SetFrequency(saving.freq_khz),
            )
        }),
{
    let saved = saving.presets_after(InputEvent::LongPress, presets);
    lemma_navigation_keeps_presets(saving, saved, turns);
    lemma_navigation_keeps_presets(saving, presets, turns);
    lemma_run_preserves_wf(saving, saved, turns);
    lemma_run_cursor_ignores_presets(saving, presets, saved, turns);
}

/// Where the cursor ends up after a run of events does not depend on what
/// the preset slots hold.
pub proof fn lemma_run_cursor_ignores_presets(
    state: AppStateView,
    presets: Seq<Option<u32>>,
    others: Seq<Option<u32>>,
    events: Seq<InputEvent>,
)
    ensures
        run(state, presets, events).0.cursor_at == run(state, others, events).0.cursor_at,
        run(state, presets, events).0.cursor_selected == run(
            state,
            others,
            events,
        ).0.cursor_selected,
    decreases events.len(),
{
    if events.len() > 0 {
        lemma_run_cursor_ignores_presets(state, presets, others, events.drop_last());
    }
}

} // verus!
