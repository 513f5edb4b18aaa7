//! Decoding of the rotary encoder. The encoder raises its clock line twice
//! per detent; only the first of the two edges tells the direction.

use vstd::prelude::*;
use crate::event::InputEvent;

verus! {

/// Decoder state between two rising edges of the clock line.
#[derive(Clone, Copy, Debug, PartialEq, Eq)]
pub struct QuadratureDecoder {
    second: bool,
}

/// The direction that an informative edge shows: the two lines agree when
/// the knob turns upwards.
pub open spec fn direction(clk: bool, data: bool) -> InputEvent {
    if data == clk {
        InputEvent::ScrollUp
    } else {
        InputEvent::ScrollDown
    }
}

/// Whether a decoder discards the `index`-th rising edge (counted from
/// zero) that it sees from now on, given whether it discards the next one.
pub open spec fn discards_at(discards_next: bool, index: nat) -> bool {
    discards_next != (index % 2 == 1)
}

/// What the `index`-th rising edge (counted from zero) of a freshly started
/// decoder produces, given the levels read at that edge.
pub open spec fn edge_event(index: nat, clk: bool, data: bool) -> Option<InputEvent> {
    if discards_at(false, index) {
        None
    } else {
        Some(direction(clk, data))
    }
}

/// The events that a decoder produces over a run of rising edges, each
/// given by its `(clk, data)` levels, in order; `discards_next` tells
/// whether the decoder discards the first of them.
pub open spec fn decoded_from(discards_next: bool, edges: Seq<(bool, bool)>) -> Seq<InputEvent>
    decreases edges.len(),
{
    if edges.len() == 0 {
        Seq::empty()
    } else {
        let before = decoded_from(discards_next, edges.drop_last());
        if discards_at(discards_next, (edges.len() - 1) as nat) {
            before
        } else {
            before.push(direction(edges.last().0, edges.last().1))
        }
    }
}

/// The events that a freshly started decoder produces over a run of rising
/// edges.
pub open spec fn decoded(edges: Seq<(bool, bool)>) -> Seq<InputEvent> {
    decoded_from(false, edges)
}

impl QuadratureDecoder {
    /// Whether the next rising edge is the second one of a detent, which
    /// carries no information.
    pub closed spec fn discards_next(&self) -> bool {
        self.second
    }

    /// A decoder that has seen no edge yet.
    pub fn new() -> (decoder: QuadratureDecoder)
        ensures
            !decoder.discards_next(),
    {
        QuadratureDecoder { second: false }
    }

    /// Takes the levels of the clock and data lines read at a rising edge of
    /// the clock line. Every other edge yields an event; the decoder flips
    /// on each edge, whether or not it emitted one.
    pub fn on_rising_edge(&mut self, clk: bool, data: bool) -> (event: Option<InputEvent>)
        ensures
            final(self).discards_next() == !old(self).discards_next(),
            old(self).discards_next() ==> event.is_none(),
            !old(self).discards_next() ==> event == Some(direction(clk, data)),
    {
        let event = if !self.second {
            if data == clk {
                Some(InputEvent::ScrollUp)
            } else {
                Some(InputEvent::ScrollDown)
            }
        } else {
            None
        };
        self.second = !self.second;
        event
    }

    /// Feeds a run of rising edges through the decoder and collects the
    /// events, in order.
    pub fn decode(&mut self, edges: &Vec<(bool, bool)>) -> (events: Vec<InputEvent>)
        ensures
            events@ == decoded_from(old(self).discards_next(), edges@),
            final(self).discards_next() == discards_at(
                old(self).discards_next(),
                edges.len() as nat,
            ),
    {
        let mut events: Vec<InputEvent> = Vec::new();
        let mut i: usize = 0;
        while i < edges.len()
            invariant
                i <= edges.len(),
                events@ == decoded_from(old(self).discards_next(), edges@.take(i as int)),
                self.discards_next() == discards_at(old(self).discards_next(), i as nat),
            decreases edges.len() - i,
        {
            let (clk, data) = edges[i];
            let event = self.on_rising_edge(clk, data);
            proof {
                let upto = edges@.take(i + 1);
                assert(upto.drop_last() == edges@.take(i as int));
                assert(upto.last() == edges@[i as int]);
            }
            match event {
                Some(e) => events.push(e),
                None => {},
            }
            i += 1;
        }
        proof {
            assert(edges@.take(edges.len() as int) == edges@);
        }
        events
    }
}

/// Among the edges that a decoder sees, the first, third, fifth and so on
/// are informative: each yields exactly the direction read at it. The edges
/// between them never yield anything.
pub proof fn lemma_alternate_edges_inform(index: nat, clk: bool, data: bool)
    ensures
        index % 2 == 0 && data == clk ==> edge_event(index, clk, data) == Some(
            InputEvent::ScrollUp,
        ),
        index % 2 == 0 && data != clk ==> edge_event(index, clk, data) == Some(
            InputEvent::ScrollDown,
        ),
        index % 2 == 1 ==> edge_event(index, clk, data).is_none(),
{
}

/// A run of edges yields one event per informative edge: half the edges,
/// rounded up for a fresh decoder and rounded down for one that discards
/// the first edge.
pub proof fn lemma_decoded_len(edges: Seq<(bool, bool)>)
    ensures
        decoded(edges).len() == (edges.len() + 1) / 2,
        decoded_from(true, edges).len() == edges.len() / 2,
    decreases edges.len(),
{
    if edges.len() > 0 {
        lemma_decoded_len(edges.drop_last());
    }
}

/// The `k`-th event of a run is the direction read at edge `2 * k`.
pub proof fn lemma_decoded_index(edges: Seq<(bool, bool)>, k: int)
    requires
        0 <= k,
        2 * k < edges.len(),
    ensures
        k < decoded(edges).len(),
        decoded(edges)[k] == direction(edges[2 * k].0, edges[2 * k].1),
    decreases edges.len(),
{
    lemma_decoded_len(edges);
    lemma_decoded_len(edges.drop_last());
    if 2 * k < edges.len() - 1 {
        lemma_decoded_index(edges.drop_last(), k);
    }
}

} // verus!
