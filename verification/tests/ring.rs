use radio::ring::{UIElement, NUM_PRESETS};

fn ring() -> Vec<UIElement> {
    vec![
        UIElement::SeekDown,
        UIElement::FreqControl,
        UIElement::SeekUp,
        UIElement::Preset(0),
        UIElement::Preset(1),
        UIElement::Preset(2),
        UIElement::Preset(3),
        UIElement::VolumeControl,
    ]
}

#[test]
fn there_are_four_presets() {
    assert_eq!(NUM_PRESETS, 4);
}

#[test]
fn next_follows_the_ring_order() {
    let ring = ring();
    for i in 0..ring.len() {
        assert_eq!(ring[i].next(), ring[(i + 1) % ring.len()]);
    }
}

#[test]
fn prev_follows_the_ring_order_backwards() {
    let ring = ring();
    for i in 0..ring.len() {
        assert_eq!(ring[(i + 1) % ring.len()].prev(), ring[i]);
    }
}

#[test]
fn next_then_prev_is_identity() {
    for e in ring() {
        assert_eq!(e.next().prev(), e);
    }
}

#[test]
fn prev_then_next_is_identity() {
    for e in ring() {
        assert_eq!(e.prev().next(), e);
    }
}

#[test]
fn ring_wraps_at_both_ends() {
    assert_eq!(UIElement::VolumeControl.next(), UIElement::SeekDown);
    assert_eq!(UIElement::SeekDown.prev(), UIElement::VolumeControl);
}

#[test]
fn presets_join_seek_up_and_volume() {
    assert_eq!(UIElement::SeekUp.next(), UIElement::Preset(0));
    assert_eq!(UIElement::Preset(0).prev(), UIElement::SeekUp);
    assert_eq!(UIElement::Preset(3).next(), UIElement::VolumeControl);
    assert_eq!(UIElement::VolumeControl.prev(), UIElement::Preset(3));
}

#[test]
fn eight_steps_come_back_and_fewer_do_not() {
    for start in ring() {
        let mut e = start;
        for step in 1..=8 {
            e = e.next();
            assert_eq!(e == start, step == 8);
        }
    }
}
