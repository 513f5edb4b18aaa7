//! The user interface state machine: the single owner of the application
//! state, driven by one input event at a time.

use vstd::prelude::*;
use crate::event::{InputEvent, OutputCommand};
use crate::presets::PresetStore;
use crate::ring::{UIElement, NUM_PRESETS};

verus! {

/// Highest volume that the tuner accepts.
pub const MAX_VOLUME: u8 = 15;

/// Step of manual tuning, in kHz.
pub const FREQ_STEP_KHZ: u32 = 100;

/// Frequency shown before the tuner reports one, in kHz.
pub const INITIAL_FREQ_KHZ: u32 = 100_000;

/// Volume before the user changes it.
pub const INITIAL_VOLUME: u8 = 5;

/// Everything that the display shows and that input acts on.
pub struct AppState {
    freq_khz: u32,
    volume: u8,
    station_info: String,
    rssi: u8,
    cursor_at: UIElement,
    cursor_selected: bool,
}

/// The application state as plain mathematical values.
pub struct AppStateView {
    /// The tuned frequency, in kHz.
    pub freq_khz: u32,
    /// The output volume, `0..=MAX_VOLUME`.
    pub volume: u8,
    /// The station text.
    pub station_info: Seq<char>,
    /// The received signal strength.
    pub rssi: u8,
    /// The element that the cursor rests on.
    pub cursor_at: UIElement,
    /// Whether the element under the cursor is selected.
    pub cursor_selected: bool,
}

/// What the caller has to carry out after an event was processed.
#[derive(Clone, Copy, Debug, PartialEq, Eq)]
pub enum Effect {
    /// Nothing leaves the state machine.
    Nothing,
    /// Hand this command to the tuner coordinator.
    Command(OutputCommand),
    /// Write `freq_khz` to the persistent slot `slot`; the in-memory store
    /// already holds it.
    Persist { slot: u8, freq_khz: u32 },
}

impl AppStateView {
    /// The state that the application starts in.
    pub open spec fn initial() -> AppStateView {
        AppStateView {
            freq_khz: INITIAL_FREQ_KHZ,
            volume: INITIAL_VOLUME,
            station_info: Seq::empty(),
            rssi: 0,
            cursor_at: UIElement::SeekDown,
            cursor_selected: false,
        }
    }

    /// The invariant of the state machine: the volume is in range, the
    /// cursor rests on an element of the ring, and only the frequency and
    /// volume controls can be selected.
    pub open spec fn wf(self) -> bool {
        &&& self.volume <= MAX_VOLUME
        &&& self.cursor_at.is_valid()
        &&& self.cursor_selected ==> self.cursor_at.is_selectable()
    }

    /// Whether the cursor is on the frequency control and selected, so that
    /// scrolling tunes.
    pub open spec fn tuning(self) -> bool {
        self.cursor_at is FreqControl && self.cursor_selected
    }

    /// Whether the cursor is on the volume control and selected, so that
    /// scrolling changes the volume.
    pub open spec fn adjusting_volume(self) -> bool {
        self.cursor_at is VolumeControl && self.cursor_selected
    }

    /// The preset slot that the unselected cursor rests on, if any.
    pub open spec fn preset_under_cursor(self) -> Option<u8> {
        match self.cursor_at {
            UIElement::Preset(slot) if !self.cursor_selected => Some(slot),
            _ => None,
        }
    }

    /// Whether `event` can be processed in this state: manual tuning must
    /// stay within what a `u32` frequency can hold.
    pub open spec fn accepts(self, event: InputEvent) -> bool {
        self.tuning() ==> {
            &&& event is ScrollDown ==> self.freq_khz >= FREQ_STEP_KHZ
            &&& event is ScrollUp ==> self.freq_khz + FREQ_STEP_KHZ <= u32::MAX
        }
    }

    /// No rule of the dispatch table covers `event` in this state.
    pub open spec fn unmatched(self, event: InputEvent) -> bool {
        &&& self.cursor_selected
        &&& !self.cursor_at.is_selectable()
        &&& (event is ScrollDown || event is ScrollUp || event is ShortPress)
    }

    /// Where the cursor rests after `event`: scrolling moves it round the
    /// ring unless an element is selected.
    pub open spec fn cursor_after(self, event: InputEvent) -> UIElement {
        if self.cursor_selected {
            self.cursor_at
        } else {
            match event {
                InputEvent::ScrollDown => self.cursor_at.predecessor(),
                InputEvent::ScrollUp => self.cursor_at.successor(),
                _ => self.cursor_at,
            }
        }
    }

    /// Whether the element under the cursor is selected after `event`: a
    /// short press on a selectable element toggles the selection.
    pub open spec fn selected_after(self, event: InputEvent) -> bool {
        if event is ShortPress && self.cursor_at.is_selectable() {
            !self.cursor_selected
        } else {
            self.cursor_selected
        }
    }

    /// The frequency that a short press recalls from `presets`, if the
    /// cursor rests on a preset whose slot holds one.
    pub open spec fn recalled(self, event: InputEvent, presets: Seq<Option<u32>>) -> Option<u32> {
        match self.preset_under_cursor() {
            Some(slot) if event is ShortPress => presets[slot as int],
            _ => None,
        }
    }

    /// The frequency after `event`: what the tuner reported, one step of
    /// manual tuning, or a recalled preset.
    pub open spec fn freq_after(self, event: InputEvent, presets: Seq<Option<u32>>) -> int {
        match event {
            InputEvent::ChangeFrequency(freq) => freq as int,
            InputEvent::ScrollDown if self.tuning() => self.freq_khz - FREQ_STEP_KHZ,
            InputEvent::ScrollUp if self.tuning() => self.freq_khz + FREQ_STEP_KHZ,
            _ => match self.recalled(event, presets) {
                Some(freq) => freq as int,
                None => self.freq_khz as int,
            },
        }
    }

    /// The volume after `event`: one step up or down while the volume
    /// control is selected, never leaving `0..=MAX_VOLUME`.
    pub open spec fn volume_after(self, event: InputEvent) -> int {
        if !self.adjusting_volume() {
            self.volume as int
        } else if event is ScrollDown && self.volume > 0 {
            self.volume - 1
        } else if event is ScrollUp && self.volume < MAX_VOLUME {
            self.volume + 1
        } else {
            self.volume as int
        }
    }

    /// The signal strength after `event`.
    pub open spec fn rssi_after(self, event: InputEvent) -> u8 {
        match event {
            InputEvent::ChangeRSSI(rssi) => rssi,
            _ => self.rssi,
        }
    }

    /// The state after `event`, with `presets` as the slots at the time of
    /// the event.
    pub open spec fn after(self, event: InputEvent, presets: Seq<Option<u32>>) -> AppStateView {
        AppStateView {
            freq_khz: self.freq_after(event, presets) as u32,
            volume: self.volume_after(event) as u8,
            station_info: self.station_info,
            rssi: self.rssi_after(event),
            cursor_at: self.cursor_after(event),
            cursor_selected: self.selected_after(event),
        }
    }

    /// The preset slots after `event`: a long press on a preset saves the
    /// current frequency there.
    pub open spec fn presets_after(self, event: InputEvent, presets: Seq<Option<u32>>) -> Seq<
        Option<u32>,
    > {
        match self.preset_under_cursor() {
            Some(slot) if event is LongPress => presets.update(slot as int, Some(self.freq_khz)),
            _ => presets,
        }
    }

    /// What leaves the state machine on `event`.
    pub open spec fn effect_of(self, event: InputEvent, presets: Seq<Option<u32>>) -> Effect {
        match event {
            InputEvent::ShortPress if !self.cursor_selected => match self.cursor_at {
                UIElement::SeekDown => Effect::Command(OutputCommand::SeekDown),
                UIElement::SeekUp => Effect::Command(OutputCommand::SeekUp),
                UIElement::Preset(slot) => match presets[slot as int] {
                    Some(freq) => Effect::Command(OutputCommand::SetFrequency(freq)),
                    None => Effect::Nothing,
                },
                _ => Effect::Nothing,
            },
            InputEvent::LongPress => match self.preset_under_cursor() {
                Some(slot) => Effect::Persist { slot, freq_khz: self.freq_khz },
                None => Effect::Nothing,
            },
            InputEvent::ScrollDown | InputEvent::ScrollUp => if self.tuning() {
                Effect::Command(
                    OutputCommand::SetFrequency(self.freq_after(event, presets) as u32),
                )
            } else if self.volume_after(event) != self.volume {
                Effect::Command(OutputCommand::SetVolume(self.volume_after(event) as u8))
            } else {
                Effect::Nothing
            },
            _ => Effect::Nothing,
        }
    }
}

impl View for AppState {
    type V = AppStateView;

    closed spec fn view(&self) -> AppStateView {
        AppStateView {
            freq_khz: self.freq_khz,
            volume: self.volume,
            station_info: self.station_info@,
            rssi: self.rssi,
            cursor_at: self.cursor_at,
            cursor_selected: self.cursor_selected,
        }
    }
}

impl AppState {
    /// Every application state is well formed.
    #[verifier::type_invariant]
    pub open spec fn inv(&self) -> bool {
        self@.wf()
    }

    /// The state at start-up: 100 MHz, volume 5, cursor on the seek-down
    /// button, nothing selected.
    pub fn new() -> (state: AppState)
        ensures
            state@ == AppStateView::initial(),
            state@.wf(),
    {
        AppState {
            freq_khz: INITIAL_FREQ_KHZ,
            volume: INITIAL_VOLUME,
            station_info: String::new(),
            rssi: 0,
            cursor_at: UIElement::SeekDown,
            cursor_selected: false,
        }
    }

    /// Whether `event` can be processed in this state.
    pub fn accepts(&self, event: &InputEvent) -> (ok: bool)
        ensures
            ok == self@.accepts(*event),
    {
        match (self.cursor_at, self.cursor_selected, event) {
            (UIElement::FreqControl, true, InputEvent::ScrollDown) => self.freq_khz >= FREQ_STEP_KHZ,
            (UIElement::FreqControl, true, InputEvent::ScrollUp) => self.freq_khz <= u32::MAX
                - FREQ_STEP_KHZ,
            _ => true,
        }
    }

    /// Processes one event: updates the state and the preset slots by the
    /// dispatch table and returns what the caller has to carry out.
    pub fn process_event(&mut self, event: InputEvent, presets: &mut PresetStore) -> (effect:
        Effect)
        requires
            old(self)@.accepts(event),
        ensures
            final(self)@ == old(self)@.after(event, old(presets)@),
            final(presets)@ == old(self)@.presets_after(event, old(presets)@),
            effect == old(self)@.effect_of(event, old(presets)@),
            final(self)@.wf(),
    {
        proof {
            use_type_invariant(&*self);
            presets.lemma_len();
        }
        match event {
            InputEvent::ScrollDown => {
                if !self.cursor_selected {
                    self.cursor_at = self.cursor_at.prev();
                    Effect::Nothing
                } else {
                    match self.cursor_at {
                        UIElement::FreqControl => {
                            self.freq_khz = self.freq_khz - FREQ_STEP_KHZ;
                            Effect::Command(OutputCommand::SetFrequency(self.freq_khz))
                        },
                        _ => {
                            if self.volume > 0 {
                                self.volume = self.volume - 1;
                                Effect::Command(OutputCommand::SetVolume(self.volume))
                            } else {
                                Effect::Nothing
                            }
                        },
                    }
                }
            },
            InputEvent::ScrollUp => {
                if !self.cursor_selected {
                    self.cursor_at = self.cursor_at.next();
                    Effect::Nothing
                } else {
                    match self.cursor_at {
                        UIElement::FreqControl => {
                            self.freq_khz = self.freq_khz + FREQ_STEP_KHZ;
                            Effect::Command(OutputCommand::SetFrequency(self.freq_khz))
                        },
                        _ => {
                            if self.volume < MAX_VOLUME {
                                self.volume = self.volume + 1;
                                Effect::Command(OutputCommand::SetVolume(self.volume))
                            } else {
                                Effect::Nothing
                            }
                        },
                    }
                }
            },
            InputEvent::ChangeFrequency(freq) => {
                self.freq_khz = freq;
                Effect::Nothing
            },
            InputEvent::ChangeRSSI(rssi) => {
                self.rssi = rssi;
                Effect::Nothing
            },
            InputEvent::ChangeStationInfo(_) => Effect::Nothing,
            InputEvent::ShortPress => {
                match self.cursor_at {
                    UIElement::FreqControl | UIElement::VolumeControl => {
                        self.cursor_selected = !self.cursor_selected;
                        Effect::Nothing
                    },
                    UIElement::SeekDown => Effect::Command(OutputCommand::SeekDown),
                    UIElement::SeekUp => Effect::Command(OutputCommand::SeekUp),
                    UIElement::Preset(slot) => {
                        match presets.get(slot) {
                            Some(freq) => {
                                self.freq_khz = freq;
                                Effect::Command(OutputCommand::SetFrequency(freq))
                            },
                            None => Effect::Nothing,
                        }
                    },
                }
            },
            InputEvent::LongPress => {
                match self.cursor_at {
                    UIElement::Preset(slot) => {
                        presets.set(slot, self.freq_khz);
                        Effect::Persist { slot, freq_khz: self.freq_khz }
                    },
                    _ => Effect::Nothing,
                }
            },
        }
    }

    /// The tuned frequency, in kHz.
    pub fn freq_khz(&self) -> (freq: u32)
        ensures
            freq == self@.freq_khz,
    {
        self.freq_khz
    }

    /// The output volume, `0..=15`.
    pub fn volume(&self) -> (volume: u8)
        ensures
            volume == self@.volume,
            volume <= MAX_VOLUME,
    {
        proof {
            use_type_invariant(self);
        }
        self.volume
    }

    /// The station text.
    pub fn station_info(&self) -> (text: &String)
        ensures
            text@ == self@.station_info,
    {
        &self.station_info
    }

    /// The received signal strength.
    pub fn rssi(&self) -> (rssi: u8)
        ensures
            rssi == self@.rssi,
    {
        self.rssi
    }

    /// The element that the cursor rests on.
    pub fn cursor_at(&self) -> (element: UIElement)
        ensures
            element == self@.cursor_at,
            element.is_valid(),
    {
        proof {
            use_type_invariant(self);
        }
        self.cursor_at
    }

    /// Whether the element under the cursor is selected.
    pub fn cursor_selected(&self) -> (selected: bool)
        ensures
            selected == self@.cursor_selected,
            selected ==> self@.cursor_at.is_selectable(),
    {
        proof {
            use_type_invariant(self);
        }
        self.cursor_selected
    }
}

} // verus!
