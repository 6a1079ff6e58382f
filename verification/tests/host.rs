use wasm_audio::blocks::{block_bounds, block_count, BLOCK_SIZE};
use wasm_audio::host::{
    check_param_record, frame_count, get_val_f32, get_val_string, param_from_record, write_stereo, Value,
};

#[test]
fn blocks_of_a_buffer() {
    assert_eq!(BLOCK_SIZE, 128);
    assert_eq!(block_count(0), 0);
    assert_eq!(block_count(127), 0);
    assert_eq!(block_count(128), 1);
    assert_eq!(block_count(1000), 7);
    assert_eq!(block_bounds(300), vec![(0, 128), (128, 256)]);
    assert!(block_bounds(100).is_empty());
}

#[test]
fn frames_of_a_buffer() {
    assert_eq!(frame_count(1024, 2), 512);
    assert_eq!(frame_count(7, 2), 3);
    assert_eq!(frame_count(9, 3), 3);
}

#[test]
fn stereo_layout() {
    let mut data = [0i32; 8];
    write_stereo(&mut data, &[1, 2, 3], 2);
    assert_eq!(data, [1, 1, 2, 2, 3, 3, 0, 0]);

    let mut data = [9u8; 9];
    write_stereo(&mut data, &[1, 2, 3], 3);
    assert_eq!(data, [1, 1, 9, 2, 2, 9, 3, 3, 9]);

    let mut data = [5u16; 4];
    write_stereo(&mut data, &[], 2);
    assert_eq!(data, [5, 5, 5, 5]);

    // The last frame may be cut after its second channel.
    let mut data = [0i8; 5];
    write_stereo(&mut data, &[4, 6], 3);
    assert_eq!(data, [4, 4, 0, 6, 6]);
}

#[test]
fn values_and_records() {
    assert_eq!(get_val_string(Value::String("mix".to_string())), "mix");
    assert_eq!(get_val_f32(Value::Float32(0.5f32.to_bits())), 0.5f32.to_bits());
    let rec = vec![
        Value::String("decay".to_string()),
        Value::Float32(0.0f32.to_bits()),
        Value::Float32(0.9999f32.to_bits()),
        Value::Float32(0.3f32.to_bits()),
    ];
    assert!(check_param_record(&rec));
    let p = param_from_record(&rec);
    assert_eq!(p.name, "decay");
    assert_eq!(f32::from_bits(p.min), 0.0);
    assert_eq!(f32::from_bits(p.max), 0.9999);
    assert_eq!(f32::from_bits(p.value), 0.3);
    assert!(!check_param_record(&rec[..3].iter().map(|v| v.duplicate()).collect()));
    let bad = vec![Value::Other, Value::Float32(0), Value::Float32(0), Value::Float32(0)];
    assert!(!check_param_record(&bad));
    let bad2 = vec![Value::String("x".into()), Value::Float32(0), Value::String("y".into()), Value::Float32(0)];
    assert!(!check_param_record(&bad2));
}

#[test]
fn narrow_frames_overlap() {
    // One channel per frame: each value also lands on the next sample, until the
    // next value overwrites it.
    let mut data = [0i32; 4];
    write_stereo(&mut data, &[1, 2], 1);
    assert_eq!(data, [1, 2, 2, 0]);

    // No channels: every value goes to the first two samples; the last one stays.
    let mut data = [0i32; 3];
    write_stereo(&mut data, &[7, 8, 9], 0);
    assert_eq!(data, [9, 9, 0]);
}
