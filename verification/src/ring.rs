//! The ring of user interface elements that the cursor walks through.

use vstd::prelude::*;

verus! {

/// Number of preset slots shown on the display.
pub const NUM_PRESETS: u8 = 4;

/// Something on the display that the cursor can rest on.
#[derive(Clone, Copy, Debug, PartialEq, Eq, Structural)]
pub enum UIElement {
    /// The seek-down button.
    SeekDown,
    /// The frequency read-out; selectable for manual tuning.
    FreqControl,
    /// The seek-up button.
    SeekUp,
    /// One of the preset buttons, numbered from zero.
    Preset(u8),
    /// The volume bar; selectable for adjusting the volume.
    VolumeControl,
}

/// Number of elements in the ring: the four fixed ones and the presets.
pub open spec fn ring_len() -> int {
    NUM_PRESETS + 4
}

/// The element found `position` steps after `SeekDown`.
pub open spec fn element_at(position: int) -> UIElement {
    if position == 0 {
        UIElement::SeekDown
    } else if position == 1 {
        UIElement::FreqControl
    } else if position == 2 {
        UIElement::SeekUp
    } else if position < 3 + NUM_PRESETS {
        UIElement::Preset((position - 3) as u8)
    } else {
        UIElement::VolumeControl
    }
}

impl UIElement {
    /// Whether this is one of the elements of the ring: a preset must name
    /// an existing slot.
    pub open spec fn is_valid(self) -> bool {
        self matches UIElement::Preset(index) ==> index < NUM_PRESETS
    }

    /// How many steps after `SeekDown` this element stands.
    pub open spec fn position(self) -> int {
        match self {
            UIElement::SeekDown => 0,
            UIElement::FreqControl => 1,
            UIElement::SeekUp => 2,
            UIElement::Preset(index) => 3 + index,
            UIElement::VolumeControl => 3 + NUM_PRESETS,
        }
    }

    /// The element one step further round the ring.
    pub open spec fn successor(self) -> UIElement {
        element_at((self.position() + 1) % ring_len())
    }

    /// The element one step back round the ring.
    pub open spec fn predecessor(self) -> UIElement {
        element_at((self.position() - 1) % ring_len())
    }

    /// Whether a short press on this element toggles the selection.
    pub open spec fn is_selectable(self) -> bool {
        self is FreqControl || self is VolumeControl
    }

    /// Moves one step back round the ring, wrapping from `SeekDown` to
    /// `VolumeControl`.
    pub fn prev(self) -> (element: UIElement)
        ensures
            self.is_valid() ==> element == self.predecessor(),
            self.is_valid() ==> element.is_valid(),
    {
        match self {
            UIElement::SeekDown => UIElement::VolumeControl,
            UIElement::FreqControl => UIElement::SeekDown,
            UIElement::SeekUp => UIElement::FreqControl,
            UIElement::Preset(index) => {
                if index == 0 {
                    UIElement::SeekUp
                } else {
                    UIElement::Preset(index - 1)
                }
            },
            UIElement::VolumeControl => UIElement::Preset(NUM_PRESETS - 1),
        }
    }

    /// Moves one step further round the ring, wrapping from `VolumeControl`
    /// to `SeekDown`.
    pub fn next(self) -> (element: UIElement)
        ensures
            self.is_valid() ==> element == self.successor(),
            self.is_valid() ==> element.is_valid(),
    {
        match self {
            UIElement::SeekDown => UIElement::FreqControl,
            UIElement::FreqControl => UIElement::SeekUp,
            UIElement::SeekUp => UIElement::Preset(0),
            UIElement::Preset(index) => {
                if index < NUM_PRESETS - 1 {
                    UIElement::Preset(index + 1)
                } else {
                    UIElement::VolumeControl
                }
            },
            UIElement::VolumeControl => UIElement::SeekDown,
        }
    }
}

/// Every valid element stands at a position inside the ring, and that
/// position names it.
pub proof fn lemma_position_names_element(e: UIElement)
    requires
        e.is_valid(),
    ensures
        0 <= e.position() < ring_len(),
        element_at(e.position()) == e,
{
}

/// Every position inside the ring holds a valid element, which stands at
/// that position.
pub proof fn lemma_element_at_position(position: int)
    requires
        0 <= position < ring_len(),
    ensures
        element_at(position).is_valid(),
        element_at(position).position() == position,
{
}

/// Stepping round the ring never leaves it.
pub proof fn lemma_steps_stay_in_ring(e: UIElement)
    requires
        e.is_valid(),
    ensures
        e.successor().is_valid(),
        e.predecessor().is_valid(),
{
}

/// The ring is a true cycle: a step forward undoes a step back, and a step
/// back undoes a step forward.
pub proof fn lemma_ring_round_trip(e: UIElement)
    requires
        e.is_valid(),
    ensures
        e.successor().predecessor() == e,
        e.predecessor().successor() == e,
{
}

/// Walking forward through the whole ring, one step per element, ends where
/// it began, and no shorter walk does.
pub proof fn lemma_ring_is_one_cycle(e: UIElement, steps: nat)
    requires
        e.is_valid(),
    ensures
        walk(e, steps).is_valid(),
        walk(e, steps).position() == (e.position() + steps) % ring_len(),
        walk(e, steps) == e <==> steps % (ring_len() as nat) == 0,
    decreases steps,
{
    if steps > 0 {
        lemma_ring_is_one_cycle(e, (steps - 1) as nat);
    }
}

/// The element reached from `e` after `steps` steps forward.
pub open spec fn walk(e: UIElement, steps: nat) -> UIElement
    decreases steps,
{
    if steps == 0 {
        e
    } else {
        walk(e, (steps - 1) as nat).successor()
    }
}

} // verus!
