use xs233::MapToCurve;

fn sample() -> [u8; 30] {
    let mut data = [0u8; 30];
    for (i, b) in data.iter_mut().enumerate() {
        *b = (i as u8).wrapping_mul(37).wrapping_add(11);
    }
    data[29] = 0xab;
    data
}

#[test]
fn first_attempt_is_masked_input() {
    let data = sample();
    let search = MapToCurve::new(data);
    let mut expected = data;
    expected[29] = 0x01;
    assert_eq!(search.attempt(), expected);
}

#[test]
fn mask_clears_all_but_low_bit_of_last_byte() {
    let mut data = [0u8; 30];
    data[29] = 0xfe;
    assert_eq!(MapToCurve::new(data).attempt()[29], 0);
    data[29] = 0xff;
    assert_eq!(MapToCurve::new(data).attempt()[29], 1);
    data[29] = 0x80;
    assert_eq!(MapToCurve::new(data).attempt()[29], 0);
}

#[test]
fn counter_is_xored_into_first_byte() {
    let data = sample();
    let mut search = MapToCurve::new(data);
    for ctr in 0u16..300 {
        let attempt = search.attempt();
        assert_eq!(attempt[0], data[0] ^ (ctr % 256) as u8);
        assert_eq!(&attempt[1..29], &data[1..29]);
        assert_eq!(attempt[29], data[29] & 1);
        assert!(!search.step(false));
    }
}

#[test]
fn accepted_attempt_ends_search() {
    let data = sample();
    let mut search = MapToCurve::new(data);
    assert!(!search.step(false));
    assert!(!search.step(false));
    let before = search.attempt();
    assert!(search.step(true));
    assert_eq!(search.attempt(), before);
    assert_eq!(before[0], data[0] ^ 2);
}

#[test]
fn counter_wraps_after_256_attempts() {
    let data = sample();
    let mut search = MapToCurve::new(data);
    let first = search.attempt();
    for _ in 0..256 {
        search.step(false);
    }
    assert_eq!(search.attempt(), first);
}

#[test]
fn one_search_tries_256_distinct_encodings() {
    let mut search = MapToCurve::new([0x5au8; 30]);
    let mut seen = Vec::new();
    for _ in 0..256 {
        let attempt = search.attempt();
        assert!(!seen.contains(&attempt));
        seen.push(attempt);
        search.step(false);
    }
    assert_eq!(seen.len(), 256);
}

#[test]
fn search_stops_where_a_decoder_first_accepts() {
    // A stand-in decoder that accepts only first bytes below 0x10.
    let data = [0x37u8; 30];
    let mut search = MapToCurve::new(data);
    let mut tries = 0u32;
    let found = loop {
        let attempt = search.attempt();
        tries += 1;
        if search.step(attempt[0] < 0x10) {
            break attempt;
        }
    };
    assert_eq!(found[0], 0x37 ^ 0x30);
    assert_eq!(tries, 0x31);
}

#[test]
fn single_byte_input_is_masked_then_xored() {
    let mut search = MapToCurve::new([0xf3u8]);
    assert_eq!(search.attempt(), [0x01]);
    search.step(false);
    assert_eq!(search.attempt(), [0x00]);
    search.step(false);
    assert_eq!(search.attempt(), [0x03]);
}
