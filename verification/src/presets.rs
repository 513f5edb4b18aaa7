//! The preset slots: one saved frequency per preset button, held in memory
//! in the shape in which persistent storage keeps them.

use vstd::prelude::*;
use crate::ring::NUM_PRESETS;

verus! {

/// The saved frequency of each preset slot, in kHz; `None` where nothing
/// was saved yet.
#[derive(Clone, Copy, Debug, PartialEq, Eq)]
pub struct PresetStore {
    slots: [Option<u32>; 4],
}

/// The key under which persistent storage keeps the slot `slot`.
pub open spec fn preset_key_of(slot: u8) -> Seq<char> {
    if slot == 0 {
        "preset1"@
    } else if slot == 1 {
        "preset2"@
    } else if slot == 2 {
        "preset3"@
    } else {
        "preset4"@
    }
}

/// The key under which persistent storage keeps the slot `slot`.
pub fn preset_key(slot: u8) -> (key: &'static str)
    requires
        slot < NUM_PRESETS,
    ensures
        key@ == preset_key_of(slot),
{
    if slot == 0 {
        "preset1"
    } else if slot == 1 {
        "preset2"
    } else if slot == 2 {
        "preset3"
    } else {
        "preset4"
    }
}

impl View for PresetStore {
    type V = Seq<Option<u32>>;

    closed spec fn view(&self) -> Seq<Option<u32>> {
        self.slots@
    }
}

impl PresetStore {
    /// A store in which no slot holds a frequency.
    pub fn new() -> (store: PresetStore)
        ensures
            store@ == Seq::new(NUM_PRESETS as nat, |i: int| None::<u32>),
    {
        PresetStore { slots: [None, None, None, None] }
    }

    /// The store always has one entry per preset button.
    pub proof fn lemma_len(&self)
        ensures
            self@.len() == NUM_PRESETS,
    {
    }

    /// The frequency saved in `slot`, if any.
    pub fn get(&self, slot: u8) -> (saved: Option<u32>)
        requires
            slot < NUM_PRESETS,
        ensures
            saved == self@[slot as int],
    {
        self.slots[slot as usize]
    }

    /// Saves `freq_khz` in `slot`, replacing what was there.
    pub fn set(&mut self, slot: u8, freq_khz: u32)
        requires
            slot < NUM_PRESETS,
        ensures
            final(self)@ == old(self)@.update(slot as int, Some(freq_khz)),
    {
        self.slots[slot as usize] = Some(freq_khz);
    }
}

} // verus!
