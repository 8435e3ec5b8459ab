use vst3::{
    initialize_twice, state_round_trip, terminate_then_query,
    AudioBusBuilder, BaseComponent, BaseEditController, BaseParameter, BusDirection, Component,
    ComponentBridge, EditController, EditControllerBridge, EventBusBuilder, MediaType,
    NormalizedValue, ParameterInfoBuilder, PluginBase, ResultErr, MONO, STEREO,
};

fn gain_component() -> BaseComponent {
    let audio_in = vec![*AudioBusBuilder::new("Stereo In", STEREO).build()];
    let audio_out = vec![*AudioBusBuilder::new("Stereo Out", STEREO).build()];
    let event_in = vec![*EventBusBuilder::new("Event In", 1).build()];
    let params = vec![
        *BaseParameter::new(
            ParameterInfoBuilder::new("Gain", 0)
                .units("dB")
                .default_normalized_value(NormalizedValue::from_bits(0.5f64.to_bits()))
                .build(),
        ),
        *BaseParameter::new(ParameterInfoBuilder::new("Bypass", 2).step_count(1).build()),
    ];
    BaseComponent::new(None, audio_in, audio_out, event_in, Vec::new(), params)
}

fn gain_controller() -> BaseEditController {
    let params = vec![
        *BaseParameter::new(
            ParameterInfoBuilder::new("Gain", 0)
                .units("dB")
                .default_normalized_value(NormalizedValue::from_bits(0.5f64.to_bits()))
                .build(),
        ),
        *BaseParameter::new(ParameterInfoBuilder::new("VuPPM", 1).build()),
        *BaseParameter::new(ParameterInfoBuilder::new("Bypass", 2).step_count(1).build()),
    ];
    BaseEditController::new(params, Vec::new())
}

#[test]
fn double_initialize_fails_and_changes_nothing() {
    let mut c = gain_component();
    assert!(c.initialize());
    let buses_before = c.io.audio_inputs.get_vec().len();
    let params_before = c.params.get_parameter_count();
    assert!(!c.initialize());
    assert_eq!(c.io.audio_inputs.get_vec().len(), buses_before);
    assert_eq!(c.params.get_parameter_count(), params_before);

    let mut e = gain_controller();
    assert!(e.initialize());
    assert!(!e.initialize());
    assert_eq!(e.params.get_parameter_count(), 3);
}

#[test]
fn double_initialize_reads_as_false_code_at_the_bridge() {
    let mut bridge = ComponentBridge::new(gain_component());
    assert_eq!(bridge.initialize(), 0);
    assert_eq!(bridge.initialize(), 1);

    let mut ctrl = EditControllerBridge::new(gain_controller());
    assert_eq!(ctrl.initialize(), 0);
    assert_eq!(ctrl.initialize(), 1);
}

#[test]
fn terminate_then_query_reads_back_empty() {
    let mut c = gain_component();
    c.initialize();
    assert_eq!(c.get_bus_count(&MediaType::Audio, &BusDirection::Input), 1);
    assert!(c.terminate());
    assert_eq!(c.get_bus_count(&MediaType::Audio, &BusDirection::Input), 0);
    assert_eq!(c.get_bus_count(&MediaType::Event, &BusDirection::Input), 0);
    assert!(c.get_bus_info(&MediaType::Audio, &BusDirection::Input, 0).is_none());
    assert!(c.get_bus_info(&MediaType::Audio, &BusDirection::Input, 7).is_none());
    assert_eq!(c.params.get_parameter_count(), 0);

    let mut e = gain_controller();
    e.initialize();
    assert_eq!(e.get_parameter_count().unwrap(), 3);
    assert!(e.terminate());
    assert_eq!(e.get_parameter_count().unwrap(), 0);
}

#[test]
fn out_of_range_indices_are_rejected() {
    let mut c = gain_component();
    c.initialize();
    assert!(c.get_bus_info(&MediaType::Audio, &BusDirection::Input, 1).is_none());
    assert!(!c.activate_bus(&MediaType::Audio, &BusDirection::Input, 1, true));

    let e = {
        let mut e = gain_controller();
        e.initialize();
        e
    };
    assert!(matches!(e.get_parameter_info(3), Err(ResultErr::InvalidArgument)));
    let bridge = EditControllerBridge::new(e);
    let (code, info) = bridge.get_parameter_info(-1);
    assert_eq!(code, 2);
    assert!(info.is_none());
    let (code, info) = bridge.get_parameter_info(3);
    assert_eq!(code, 2);
    assert!(info.is_none());
}

#[test]
fn parameter_values_read_and_write_by_id() {
    let mut e = gain_controller();
    e.initialize();
    let half = NormalizedValue::from_bits(0.5f64.to_bits());
    assert_eq!(e.get_param_normalized(0).unwrap(), half);

    let v = NormalizedValue::from_bits(0.25f64.to_bits());
    e.set_param_normalized(0, v).unwrap();
    assert_eq!(e.get_param_normalized(0).unwrap(), v);
    // The others are untouched.
    assert_eq!(e.get_param_normalized(1).unwrap(), NormalizedValue::from_bits(0));

    assert!(matches!(e.get_param_normalized(42), Err(ResultErr::ResultFalse)));
    assert!(matches!(e.set_param_normalized(42, v), Err(ResultErr::ResultFalse)));
}

#[test]
fn bridge_marshals_parameter_values_as_bits() {
    let mut e = gain_controller();
    e.initialize();
    let mut bridge = EditControllerBridge::new(e);
    assert_eq!(bridge.get_param_normalized(0), 0.5f64.to_bits());
    assert_eq!(bridge.set_param_normalized(0, 0.75f64.to_bits()), 0);
    assert_eq!(bridge.get_param_normalized(0), 0.75f64.to_bits());
    // An unknown id reads as the bits of zero and rejects writes.
    assert_eq!(bridge.get_param_normalized(42), 0);
    assert_eq!(bridge.set_param_normalized(42, 1), 1);
    assert_eq!(bridge.get_parameter_count(), 3);
}

#[test]
fn bridge_rejects_undefined_codes() {
    let mut bridge = ComponentBridge::new(gain_component());
    bridge.initialize();
    // Undefined media type or direction codes never reach the component.
    assert_eq!(bridge.get_bus_count(5, 0), 2);
    assert_eq!(bridge.get_bus_count(0, 5), 2);
    let (code, info) = bridge.get_bus_info(0, 0, -1);
    assert_eq!(code, 2);
    assert!(info.is_none());
    assert_eq!(bridge.activate_bus(7, 0, 0, 1), 2);
    assert_eq!(bridge.set_io_mode(9), 2);
    assert_eq!(bridge.can_process_sample_size(5), 2);
    // Defined queries work: one audio input with two channels.
    assert_eq!(bridge.get_bus_count(0, 0), 1);
    let (code, info) = bridge.get_bus_info(0, 0, 0);
    assert_eq!(code, 0);
    let info = info.unwrap();
    assert_eq!(info.channel_count, 2);
    assert_eq!(info.name.len(), 128);
    // The fixed name field is the truncated title, zero-terminated.
    assert_eq!(info.name[0], u16::from(b'S'));
    assert_eq!(info.name[9], 0);
}

#[test]
fn processor_bridge_marshals_negotiation() {
    let mut bridge = ComponentBridge::new(gain_component());
    bridge.initialize();
    // Matching layouts are accepted, mismatched ones refused.
    assert_eq!(bridge.set_bus_arrangements(&vec![STEREO], &vec![STEREO]), 0);
    assert_eq!(bridge.set_bus_arrangements(&vec![MONO], &vec![STEREO]), 1);
    assert_eq!(bridge.set_bus_arrangements(&vec![], &vec![STEREO]), 1);
    let (code, arr) = bridge.get_bus_arrangement(0, 0);
    assert_eq!(code, 0);
    assert_eq!(arr, Some(STEREO));
    let (code, arr) = bridge.get_bus_arrangement(0, 3);
    assert_eq!(code, 1);
    assert_eq!(arr, None);
    assert_eq!(bridge.can_process_sample_size(0), 0);
    assert_eq!(bridge.can_process_sample_size(1), 1);
    assert_eq!(bridge.get_latency_samples(), 0);
    assert_eq!(bridge.get_tail_samples(), 0);
    assert_eq!(bridge.setup_processing(0, 0, 512, 44100.0f64.to_bits()), 0);
    assert_eq!(bridge.setup_processing(9, 0, 512, 0), 2);
    assert_eq!(bridge.set_processing(1), 0);
}

#[test]
fn law_functions_hold_on_a_concrete_component() {
    let mut c = gain_component();
    assert_eq!(initialize_twice(&mut c), (true, false));

    let values: Vec<u64> = c
        .params
        .params
        .iter()
        .map(|p| p.value_normalized.bits)
        .collect();
    assert!(state_round_trip(&mut c));
    let after: Vec<u64> = c
        .params
        .params
        .iter()
        .map(|p| p.value_normalized.bits)
        .collect();
    assert_eq!(values, after);

    let (count, info, params) =
        terminate_then_query(&mut c, MediaType::Audio, BusDirection::Input, 3);
    assert_eq!(count, 0);
    assert!(info.is_none());
    assert_eq!(params, 0);
}
