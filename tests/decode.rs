use finalspark_rs::sample::{
    decode_payload, ALL_DEVICES_BYTES, BLOCK_READINGS, CHANNELS, ONE_DEVICE_BYTES,
    READINGS_PER_CHANNEL,
};
use finalspark_rs::{LiveData, MeaError};

fn payload_of(readings: usize) -> Vec<u8> {
    let mut out = Vec::with_capacity(readings * 4);
    for k in 0..readings {
        out.extend_from_slice(&(k as f32 + 0.5).to_ne_bytes());
    }
    out
}

fn value(d: &LiveData, c: usize, k: usize) -> f32 {
    f32::from_ne_bytes(d.data[c][k])
}

#[test]
fn one_block_is_reshaped_in_order_for_any_selector() {
    let p = payload_of(BLOCK_READINGS);
    assert_eq!(p.len(), ONE_DEVICE_BYTES);
    for idx in 0..4u32 {
        let d = decode_payload(&p, idx, "t".to_string()).unwrap();
        assert_eq!(d.data.len(), CHANNELS);
        for c in 0..CHANNELS {
            assert_eq!(d.data[c].len(), READINGS_PER_CHANNEL);
        }
        assert_eq!(value(&d, 0, 0), 0.5);
        assert_eq!(value(&d, 0, 4095), 4095.5);
        assert_eq!(value(&d, 1, 0), 4096.5);
        assert_eq!(value(&d, 31, 4095), 131071.5);
        assert_eq!(d.timestamp, "t");
    }
}

#[test]
fn all_blocks_yield_the_selected_range() {
    let p = payload_of(4 * BLOCK_READINGS);
    assert_eq!(p.len(), ALL_DEVICES_BYTES);
    for sel in 1..=4usize {
        let d = decode_payload(&p, (sel - 1) as u32, String::new()).unwrap();
        let start = (sel - 1) * BLOCK_READINGS;
        assert_eq!(d.data.len(), 32);
        for c in [0usize, 7, 31] {
            assert_eq!(d.data[c].len(), 4096);
            for k in [0usize, 1, 2048, 4095] {
                let at = 4 * (start + c * 4096 + k);
                assert_eq!(d.data[c][k], [p[at], p[at + 1], p[at + 2], p[at + 3]]);
            }
        }
        assert_eq!(value(&d, 0, 0), start as f32 + 0.5);
    }
}

#[test]
fn other_sizes_are_payload_size_errors() {
    for len in [0usize, 4, ONE_DEVICE_BYTES - 4, ONE_DEVICE_BYTES + 4, ONE_DEVICE_BYTES + 1, 2 * ONE_DEVICE_BYTES, ALL_DEVICES_BYTES - 1, ALL_DEVICES_BYTES + 4] {
        let p = vec![1u8; len];
        let r = decode_payload(&p, 0, String::new());
        assert_eq!(
            r.unwrap_err(),
            MeaError::PayloadSize {
                got_bytes: len,
                expected_one_bytes: 32 * 4096 * 4,
                expected_all_bytes: 128 * 4096 * 4,
            }
        );
    }
}

#[test]
fn decoding_twice_gives_identical_readings() {
    let p = payload_of(4 * BLOCK_READINGS);
    let a = decode_payload(&p, 2, "first".to_string()).unwrap();
    let b = decode_payload(&p, 2, "second".to_string()).unwrap();
    assert_eq!(a.data, b.data);
    assert!(a.is_well_formed());
}

#[test]
fn shape_check_rejects_wrong_counts() {
    let p = payload_of(BLOCK_READINGS);
    let mut d = decode_payload(&p, 0, String::new()).unwrap();
    assert!(d.is_well_formed());
    d.data[5].pop();
    assert!(!d.is_well_formed());
    d.data.pop();
    assert!(!d.is_well_formed());
}
