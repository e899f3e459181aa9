use godot_serde::{QuatBits, Serde, Vector2Bits, Vector3Bits};

fn quat_of(i: f32, j: f32, k: f32, r: f32) -> QuatBits {
    QuatBits { i: i.to_bits(), j: j.to_bits(), k: k.to_bits(), r: r.to_bits() }
}

#[test]
fn i64_is_little_endian() {
    assert_eq!(Serde::serialize_i64(1), vec![1, 0, 0, 0, 0, 0, 0, 0]);
}

#[test]
fn i64_negative_is_twos_complement() {
    assert_eq!(Serde::serialize_i64(-1), vec![0xFF; 8]);
    assert_eq!(
        Serde::serialize_i64(0x0102030405060708),
        vec![8, 7, 6, 5, 4, 3, 2, 1]
    );
    assert_eq!(Serde::serialize_i64(i64::MIN), vec![0, 0, 0, 0, 0, 0, 0, 0x80]);
}

#[test]
fn i64_round_trip() {
    for n in [0i64, 1, -1, 42, -1234567890123, i64::MAX, i64::MIN] {
        assert_eq!(Serde::deserialize_i64(&Serde::serialize_i64(n)), n);
    }
}

#[test]
fn i64_decode_reads_first_eight_bytes() {
    let bytes = [0x2A, 0, 0, 0, 0, 0, 0, 0, 0xFF, 0xFF];
    assert_eq!(Serde::deserialize_i64(&bytes), 42);
}

#[test]
fn f32_matches_std_layout() {
    assert_eq!(Serde::serialize_f32(1.0f32.to_bits()), 1.0f32.to_le_bytes().to_vec());
    assert_eq!(Serde::serialize_f32(1.0f32.to_bits()), vec![0x00, 0x00, 0x80, 0x3F]);
}

#[test]
fn f32_round_trip_keeps_bits() {
    let nan_payload = f32::from_bits(0x7FC0_1234);
    for v in [0.0f32, -0.0, 1.5, -3.25, f32::INFINITY, f32::NEG_INFINITY, f32::MIN_POSITIVE, nan_payload] {
        let bits = Serde::deserialize_f32(&Serde::serialize_f32(v.to_bits()));
        assert_eq!(bits, v.to_bits());
    }
}

#[test]
fn f64_matches_std_layout() {
    assert_eq!(Serde::serialize_f64(2.5f64.to_bits()), 2.5f64.to_le_bytes().to_vec());
}

#[test]
fn f64_round_trip_keeps_bits() {
    let nan_payload = f64::from_bits(0x7FF8_0000_0000_BEEF);
    for v in [0.0f64, -0.0, 1.0e300, -7.125, f64::INFINITY, nan_payload] {
        let bits = Serde::deserialize_f64(&Serde::serialize_f64(v.to_bits()));
        assert_eq!(bits, v.to_bits());
    }
}

#[test]
fn vector2_layout_and_round_trip() {
    let v = Vector2Bits { x: 1.0f32.to_bits(), y: (-2.0f32).to_bits() };
    let bytes = Serde::serialize_vector2(v);
    let mut expected = 1.0f32.to_le_bytes().to_vec();
    expected.extend_from_slice(&(-2.0f32).to_le_bytes());
    assert_eq!(bytes, expected);
    assert_eq!(Serde::deserialize_vector2(&bytes), v);
}

#[test]
fn vector3_layout_and_round_trip() {
    let v = Vector3Bits { x: 0.5f32.to_bits(), y: 10.0f32.to_bits(), z: (-0.0f32).to_bits() };
    let bytes = Serde::serialize_vector3(v);
    assert_eq!(bytes.len(), 12);
    assert_eq!(&bytes[0..4], &0.5f32.to_le_bytes());
    assert_eq!(&bytes[4..8], &10.0f32.to_le_bytes());
    assert_eq!(&bytes[8..12], &(-0.0f32).to_le_bytes());
    assert_eq!(Serde::deserialize_vector3(&bytes), v);
}

#[test]
fn quat_field_order_is_i_j_k_r() {
    let bytes = Serde::serialize_quat(quat_of(1.0, 2.0, 3.0, 4.0));
    let mut expected = Vec::new();
    for f in [1.0f32, 2.0, 3.0, 4.0] {
        expected.extend_from_slice(&f.to_le_bytes());
    }
    assert_eq!(bytes, expected);
}

#[test]
fn quat_round_trip() {
    let q = quat_of(0.0, -0.70710677, 0.25, 0.70710677);
    assert_eq!(Serde::deserialize_quat(&Serde::serialize_quat(q)), q);
    let decoded = Serde::deserialize_quat(&Serde::serialize_quat(quat_of(1.0, 2.0, 3.0, 4.0)));
    assert_eq!(f32::from_bits(decoded.i), 1.0);
    assert_eq!(f32::from_bits(decoded.r), 4.0);
}

#[test]
fn bool_array_msb_first() {
    let first = [true, false, false, false, false, false, false, false];
    assert_eq!(Serde::serialize_bool_array(&first), vec![0x80]);
    let last = [false, false, false, false, false, false, false, true];
    assert_eq!(Serde::serialize_bool_array(&last), vec![0x01]);
}

#[test]
fn bool_array_partial_last_byte() {
    assert_eq!(Serde::serialize_bool_array(&[true]), vec![0x80]);
    assert_eq!(Serde::serialize_bool_array(&[true; 9]), vec![0xFF, 0x80]);
    assert_eq!(Serde::serialize_bool_array(&[true, true, false, true]), vec![0xD0]);
}

#[test]
fn bool_array_empty() {
    assert_eq!(Serde::serialize_bool_array(&[]), Vec::<u8>::new());
    assert_eq!(Serde::deserialize_bool_array(&[], 0), Vec::<bool>::new());
    assert_eq!(Serde::deserialize_bool_array(&[0xFF], 0), Vec::<bool>::new());
}

#[test]
fn bool_array_declared_length_truncates() {
    let out = Serde::deserialize_bool_array(&[0xFF, 0xFF], 9);
    assert_eq!(out, vec![true; 9]);
}

#[test]
fn bool_array_decode_ignores_extra_bytes() {
    let out = Serde::deserialize_bool_array(&[0xA0, 0xFF, 0xFF], 3);
    assert_eq!(out, vec![true, false, true]);
}

#[test]
fn bool_array_decode_msb_first() {
    let out = Serde::deserialize_bool_array(&[0x01, 0x80], 16);
    let mut expected = vec![false; 16];
    expected[7] = true;
    expected[8] = true;
    assert_eq!(out, expected);
}

#[test]
fn bool_array_round_trip_lengths() {
    for n in [0usize, 1, 7, 8, 9, 16, 17] {
        let patterns: Vec<Vec<bool>> = vec![
            vec![true; n],
            vec![false; n],
            (0..n).map(|k| k % 2 == 0).collect(),
            (0..n).map(|k| k % 3 == 1).collect(),
        ];
        for seq in patterns {
            let bytes = Serde::serialize_bool_array(&seq);
            assert_eq!(bytes.len(), (n + 7) / 8);
            assert_eq!(Serde::deserialize_bool_array(&bytes, n), seq);
        }
    }
}

#[test]
fn bool_array_round_trip_all_patterns_of_nine() {
    for mask in 0u32..(1 << 9) {
        let seq: Vec<bool> = (0..9).map(|k| mask & (1 << k) != 0).collect();
        let bytes = Serde::serialize_bool_array(&seq);
        assert_eq!(bytes.len(), 2);
        assert_eq!(bytes[1] & 0x7F, 0);
        assert_eq!(Serde::deserialize_bool_array(&bytes, 9), seq);
    }
}
