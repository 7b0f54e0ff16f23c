use ikarus::fifo::FifoReader;
use ikarus::fifo::FifoStatus;
use ikarus::fifo::Sample;
use ikarus::fifo::SampleEvent;
use ikarus::fifo::get_comp_values;
use ikarus::fifo::process_imu_data;

fn status(unread_words: u16, over_run: bool, pattern: u16) -> FifoStatus {
    FifoStatus {
        unread_words,
        threshold: false,
        over_run,
        full: false,
        empty: false,
        pattern,
    }
}

fn sample_of(event: &SampleEvent) -> Sample {
    match event {
        SampleEvent::Clean(s) => *s,
        SampleEvent::Lagged(s) => *s,
    }
}

/// 18 bytes of one sample whose nine words are `base`, `base+1`, ...
fn sample_bytes(base: i16) -> Vec<u8> {
    let mut out = Vec::new();
    for w in 0..9i16 {
        let le = (base + w).to_le_bytes();
        out.push(le[0]);
        out.push(le[1]);
    }
    out
}

#[test]
fn status_bytes_decode() {
    // unread = 0x0321, flags from the high nibble of byte 1,
    // pattern = 0x0104
    let st = FifoStatus::from_bytes(&[0x21, 0xf3, 0x04, 0x01]);
    assert_eq!(st.unread_words, 0x0321);
    assert!(st.threshold);
    assert!(st.over_run);
    assert!(st.full);
    assert!(st.empty);
    assert_eq!(st.pattern, 0x0104);

    let st2 = FifoStatus::from_bytes(&[0x09, 0x00, 0x03, 0x00]);
    assert_eq!(st2.unread_words, 9);
    assert!(!st2.over_run);
    assert_eq!(st2.pattern, 3);
}

#[test]
fn drain_clean_stream_is_clean() {
    let mut reader = FifoReader::new();
    let mut input = sample_bytes(100);
    input.extend(sample_bytes(-200));
    let events = reader.drain(&status(18, false, 0), &input);
    assert_eq!(events.len(), 2);
    for e in &events {
        assert!(matches!(e, SampleEvent::Clean(_)));
    }
    let s0 = sample_of(&events[0]);
    assert_eq!(s0.gyro_mdps, [100 * 35, 101 * 35, 102 * 35]);
    assert_eq!(s0.accel_ug, [103 * 244, 104 * 244, 105 * 244]);
    assert_eq!(s0.temp_raw, [106, 107, 108]);
    let s1 = sample_of(&events[1]);
    assert_eq!(s1.gyro_mdps, [-200 * 35, -199 * 35, -198 * 35]);
}

#[test]
fn drain_overrun_tags_all_lagged() {
    let mut reader = FifoReader::new();
    let mut input = sample_bytes(1);
    input.extend(sample_bytes(50));
    // pattern agrees with the empty leftover, but the overrun flag is set
    let events = reader.drain(&status(18, true, 0), &input);
    assert_eq!(events.len(), 2);
    for e in &events {
        assert!(matches!(e, SampleEvent::Lagged(_)));
    }
}

#[test]
fn drain_pattern_mismatch_tags_lagged_and_resyncs() {
    let mut reader = FifoReader::new();
    // the reader retained nothing, but the hardware says the next word is
    // word 4 of a sample: the poll is out of sync
    let mut input = vec![0u8; 10];
    input.extend(sample_bytes(7));
    let events = reader.drain(&status(14, false, 4), &input);
    // 10 bytes of the partial sample are discarded, one whole sample remains
    assert_eq!(events.len(), 1);
    assert!(matches!(events[0], SampleEvent::Lagged(_)));
    let s = sample_of(&events[0]);
    assert_eq!(s.gyro_mdps, [7 * 35, 8 * 35, 9 * 35]);
}

#[test]
fn drain_retains_partial_trailing_sample() {
    let mut reader = FifoReader::new();
    let mut input = sample_bytes(10);
    // 4 extra bytes: two words of the next sample
    let next = sample_bytes(1000);
    input.extend_from_slice(&next[0..4]);
    let events = reader.drain(&status(11, false, 0), &input);
    assert_eq!(events.len(), 1);
    assert!(matches!(events[0], SampleEvent::Clean(_)));

    // next poll: the hardware reports pattern 2, matching the two retained
    // words, and hands over the rest of the sample
    let events2 = reader.drain(&status(7, false, 2), &next[4..18]);
    assert_eq!(events2.len(), 1);
    assert!(matches!(events2[0], SampleEvent::Clean(_)));
    let s = sample_of(&events2[0]);
    assert_eq!(s.gyro_mdps, [1000 * 35, 1001 * 35, 1002 * 35]);
    assert_eq!(s.temp_raw, [1006, 1007, 1008]);
}

#[test]
fn process_imu_data_words() {
    let mut data = [0u8; 12];
    let words: [i16; 6] = [0, 1, -1, 32767, -32768, 514];
    for (i, w) in words.iter().enumerate() {
        let le = w.to_le_bytes();
        data[2 * i] = le[0];
        data[2 * i + 1] = le[1];
    }
    assert_eq!(process_imu_data(data), words);
}

#[test]
fn comp_values_average_truncates_towards_zero() {
    let mut data = [[0i16; 6]; 400];
    for r in 0..400 {
        data[r][0] = 10;
        data[r][1] = if r < 200 { 1 } else { 0 };
        data[r][2] = -10;
        data[r][3] = if r == 0 { -399 } else { 0 };
        data[r][4] = i16::MAX;
        data[r][5] = i16::MIN;
    }
    let comp = get_comp_values(data);
    assert_eq!(comp[0], 10);
    assert_eq!(comp[1], 0); // 200/400 truncates to 0
    assert_eq!(comp[2], -10);
    assert_eq!(comp[3], 0); // -399/400 truncates towards zero
    assert_eq!(comp[4], i16::MAX);
    assert_eq!(comp[5], i16::MIN);
}
