use radio::encoder::QuadratureDecoder;
use radio::event::InputEvent;

#[test]
fn first_edge_with_equal_levels_scrolls_up() {
    let mut decoder = QuadratureDecoder::new();
    assert_eq!(decoder.on_rising_edge(true, true), Some(InputEvent::ScrollUp));
}

#[test]
fn first_edge_with_different_levels_scrolls_down() {
    let mut decoder = QuadratureDecoder::new();
    assert_eq!(decoder.on_rising_edge(true, false), Some(InputEvent::ScrollDown));
}

#[test]
fn low_clock_level_is_compared_like_a_high_one() {
    let mut decoder = QuadratureDecoder::new();
    assert_eq!(decoder.on_rising_edge(false, false), Some(InputEvent::ScrollUp));
    assert_eq!(decoder.on_rising_edge(false, false), None);
    assert_eq!(decoder.on_rising_edge(false, true), Some(InputEvent::ScrollDown));
}

#[test]
fn even_edges_never_emit() {
    let mut decoder = QuadratureDecoder::new();
    assert_eq!(decoder.on_rising_edge(true, true), Some(InputEvent::ScrollUp));
    assert_eq!(decoder.on_rising_edge(true, true), None);
    assert_eq!(decoder.on_rising_edge(true, false), Some(InputEvent::ScrollDown));
    assert_eq!(decoder.on_rising_edge(true, false), None);
    assert_eq!(decoder.on_rising_edge(true, true), Some(InputEvent::ScrollUp));
    assert_eq!(decoder.on_rising_edge(true, false), None);
}

#[test]
fn discarded_edge_still_flips_the_decoder() {
    let mut decoder = QuadratureDecoder::new();
    decoder.on_rising_edge(true, true);
    assert_eq!(decoder.on_rising_edge(true, false), None);
    assert_eq!(decoder.on_rising_edge(true, false), Some(InputEvent::ScrollDown));
}

#[test]
fn decode_keeps_the_odd_edges_in_order() {
    let mut decoder = QuadratureDecoder::new();
    let edges = vec![
        (true, true),
        (true, false),
        (true, false),
        (true, true),
        (true, true),
    ];
    assert_eq!(
        decoder.decode(&edges),
        vec![InputEvent::ScrollUp, InputEvent::ScrollDown, InputEvent::ScrollUp]
    );
    // five edges were seen, so the next one is the second of its detent
    assert_eq!(decoder.on_rising_edge(true, true), None);
}

#[test]
fn decode_of_nothing_is_nothing() {
    let mut decoder = QuadratureDecoder::new();
    assert_eq!(decoder.decode(&Vec::new()), Vec::<InputEvent>::new());
    assert_eq!(decoder.on_rising_edge(true, true), Some(InputEvent::ScrollUp));
}

#[test]
fn decode_yields_one_event_per_detent_begun() {
    for n in 0usize..9 {
        let mut decoder = QuadratureDecoder::new();
        let edges = vec![(true, true); n];
        assert_eq!(decoder.decode(&edges).len(), (n + 1) / 2);
    }
}

#[test]
fn decode_continues_where_the_decoder_stands() {
    let mut decoder = QuadratureDecoder::new();
    assert_eq!(decoder.on_rising_edge(true, true), Some(InputEvent::ScrollUp));
    let edges = vec![(true, true), (true, false), (true, true), (true, true)];
    assert_eq!(
        decoder.decode(&edges),
        vec![InputEvent::ScrollDown, InputEvent::ScrollUp]
    );
    assert_eq!(decoder.on_rising_edge(true, false), None);
}
