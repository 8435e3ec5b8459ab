use vst3::{
    BaseComponent, BaseEditController, BaseParameter, ByteStream, Component, EditController,
    NormalizedValue, ParameterInfoBuilder, PluginBase, ResultErr, SeekMode,
};

fn component_with_values(bits: &[u64]) -> BaseComponent {
    let mut params = Vec::new();
    for (i, b) in bits.iter().enumerate() {
        params.push(*BaseParameter::new(
            ParameterInfoBuilder::new("P", i as u32)
                .default_normalized_value(NormalizedValue::from_bits(*b))
                .build(),
        ));
    }
    BaseComponent::new(None, Vec::new(), Vec::new(), Vec::new(), Vec::new(), params)
}

#[test]
fn state_round_trip_is_bit_exact() {
    let values = [
        0.5f64.to_bits(),
        0.0f64.to_bits(),
        1.0f64.to_bits(),
        (-0.0f64).to_bits(),
        f64::MAX.to_bits(),
        f64::MIN_POSITIVE.to_bits(),
        f64::NAN.to_bits(),
    ];
    let mut writer = component_with_values(&values);
    writer.initialize();
    let mut stream = ByteStream::new();
    assert!(writer.get_state(&mut stream));
    assert_eq!(stream.bytes.len(), 8 * values.len());

    let mut reader = component_with_values(&[0; 7]);
    reader.initialize();
    stream.rewind();
    assert!(reader.set_state(&mut stream));
    for (i, v) in values.iter().enumerate() {
        assert_eq!(reader.params.get_parameter_by_index(i).unwrap().value_normalized.bits, *v);
    }
}

#[test]
fn controller_syncs_from_component_state() {
    let values = [0.25f64.to_bits(), 0.75f64.to_bits()];
    let mut comp = component_with_values(&values);
    comp.initialize();
    let mut stream = ByteStream::new();
    assert!(comp.get_state(&mut stream));

    let params = vec![
        *BaseParameter::new(ParameterInfoBuilder::new("A", 10).build()),
        *BaseParameter::new(ParameterInfoBuilder::new("B", 11).build()),
    ];
    let mut ctrl = BaseEditController::new(params, Vec::new());
    ctrl.initialize();
    stream.rewind();
    ctrl.set_component_state(&mut stream).unwrap();
    assert_eq!(ctrl.get_param_normalized(10).unwrap().bits, values[0]);
    assert_eq!(ctrl.get_param_normalized(11).unwrap().bits, values[1]);
}

#[test]
fn short_stream_fails_and_changes_nothing() {
    let mut comp = component_with_values(&[1, 2, 3]);
    comp.initialize();
    let mut stream = ByteStream::from_bytes(vec![0u8; 16]);
    assert!(!comp.set_state(&mut stream));
    assert_eq!(comp.params.get_parameter_by_index(0).unwrap().value_normalized.bits, 1);

    let mut ctrl = BaseEditController::new(
        vec![*BaseParameter::new(ParameterInfoBuilder::new("A", 0).build())],
        Vec::new(),
    );
    ctrl.initialize();
    let mut empty = ByteStream::new();
    assert!(matches!(ctrl.set_component_state(&mut empty), Err(ResultErr::ResultFalse)));
}

#[test]
fn stream_reads_and_writes_move_the_cursor() {
    let mut s = ByteStream::new();
    s.write_u64(0x0102030405060708).unwrap();
    s.write_bool(true).unwrap();
    s.write_bool(false).unwrap();
    assert_eq!(s.bytes.len(), 10);
    // Little-endian layout, one byte per flag.
    assert_eq!(s.bytes[0], 8);
    assert_eq!(s.bytes[7], 1);
    assert_eq!(s.bytes[8], 1);
    assert_eq!(s.bytes[9], 0);

    s.rewind();
    assert_eq!(s.read_u64().unwrap(), 0x0102030405060708);
    assert_eq!(s.read_bool().unwrap(), true);
    assert_eq!(s.read_bool().unwrap(), false);
    assert!(matches!(s.read_bool(), Err(ResultErr::ResultFalse)));
}

#[test]
fn seek_respects_bounds() {
    let mut s = ByteStream::from_bytes(vec![0u8; 24]);
    s.seek_by(8, SeekMode::SeekSet).unwrap();
    assert_eq!(s.pos, 8);
    s.seek_by(8, SeekMode::SeekCurrent).unwrap();
    assert_eq!(s.pos, 16);
    s.seek_by(4, SeekMode::SeekEnd).unwrap();
    assert_eq!(s.pos, 20);
    assert!(matches!(s.seek_by(25, SeekMode::SeekSet), Err(ResultErr::InvalidArgument)));
    assert_eq!(s.pos, 20);
    assert!(matches!(s.seek_by(5, SeekMode::SeekCurrent), Err(ResultErr::InvalidArgument)));
}

#[test]
fn read_past_end_fails_without_moving() {
    let mut s = ByteStream::from_bytes(vec![1, 2, 3]);
    assert!(matches!(s.read_u64(), Err(ResultErr::ResultFalse)));
    assert_eq!(s.pos, 0);
    assert_eq!(s.read_bool().unwrap(), true);
}
