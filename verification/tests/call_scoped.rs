use vst3::{
    apply_parameter_changes, BaseEditController, BaseParameter, ParameterContainer,
    ParameterInfoBuilder, EditControllerBridge, Event, EventKind, EventList, EventType,
    NormalizedValue, ParamValueQueue, ParameterChanges, PluginBase, ProgramList, ResultErr,
    UnitBuilder, UnitInfo,
};

#[test]
fn queue_points_read_back_in_order() {
    let mut q = ParamValueQueue::new(7);
    assert_eq!(q.get_parameter_id(), 7);
    assert_eq!(q.get_point_count(), 0);
    assert!(q.last_point().is_none());

    let a = NormalizedValue::from_bits(0.25f64.to_bits());
    let b = NormalizedValue::from_bits(0.75f64.to_bits());
    assert_eq!(q.add_point(0, a), 0);
    assert_eq!(q.add_point(32, b), 1);
    assert_eq!(q.get_point_count(), 2);
    assert_eq!(q.get_point(0).unwrap().value, a);
    let last = q.last_point().unwrap();
    assert_eq!(last.sample_offset, 32);
    assert_eq!(last.value, b);
    assert!(matches!(q.get_point(2), Err(ResultErr::InvalidArgument)));
}

#[test]
fn changes_reuse_the_queue_of_a_known_id() {
    let mut changes = ParameterChanges::new();
    assert_eq!(changes.get_parameter_count(), 0);
    assert!(changes.get_parameter_data(0).is_none());

    let i = changes.add_parameter_data(5);
    assert_eq!(i, 0);
    let j = changes.add_parameter_data(9);
    assert_eq!(j, 1);
    // Asking again for a known id hands back the same queue.
    let k = changes.add_parameter_data(5);
    assert_eq!(k, 0);
    assert_eq!(changes.get_parameter_count(), 2);
    assert_eq!(changes.get_parameter_data(0).unwrap().get_parameter_id(), 5);
    assert_eq!(changes.get_parameter_data(1).unwrap().get_parameter_id(), 9);
}

#[test]
fn event_type_codes_round_trip() {
    for t in [
        EventType::NoteOnEvent,
        EventType::NoteOffEvent,
        EventType::DataEvent,
        EventType::PolyPressureEvent,
        EventType::NoteExpressionValueEvent,
        EventType::NoteExpressionTextEvent,
        EventType::ChordEvent,
        EventType::ScaleEvent,
        EventType::LegacyMIDICCOutEvent,
    ] {
        assert_eq!(EventType::from_code(t.to_code()), t);
    }
    assert_eq!(EventType::NoteOnEvent.to_code(), 0);
    assert_eq!(EventType::LegacyMIDICCOutEvent.to_code(), 65535);
    assert!(!EventType::is_valid(8));
}

#[test]
fn event_list_reads_back_in_order() {
    let mut list = EventList::new();
    let note = Event {
        bus_index: 0,
        sample_offset: 16,
        ppq_position_bits: 0.0f64.to_bits(),
        flags: 1,
        kind: EventKind::NoteOn {
            channel: 0,
            pitch: 60,
            tuning_bits: 0.0f32.to_bits(),
            velocity_bits: 0.8f32.to_bits(),
            length: 0,
            note_id: -1,
        },
    };
    list.add_event(note);
    assert_eq!(list.get_event_count(), 1);
    assert_eq!(list.get_event(0).unwrap(), note);
    assert!(matches!(list.get_event(1), Err(ResultErr::InvalidArgument)));
}

#[test]
fn unit_info_marshals_units_and_selection() {
    let units = vec![
        UnitBuilder::new("Root child", 1).build(),
        UnitBuilder::new("Other", 2).parent_unit_id(1).build(),
    ];
    let mut ctrl = BaseEditController::new(Vec::new(), units);
    ctrl.add_program_list(ProgramList::new(4, "Programs", 3));
    ctrl.initialize();

    let mut bridge = EditControllerBridge::new(ctrl);
    assert_eq!(bridge.get_unit_count(), 2);
    let (code, info) = bridge.get_unit_info(1);
    assert_eq!(code, 0);
    let info = info.unwrap();
    assert_eq!(info.id, 2);
    assert_eq!(info.parent_unit_id, 1);
    assert_eq!(info.name.len(), 128);
    assert_eq!(info.name[0], u16::from(b'O'));
    let (code, info) = bridge.get_unit_info(2);
    assert_eq!(code, 2);
    assert!(info.is_none());

    assert_eq!(bridge.get_program_list_count(), 1);
    let (code, list) = bridge.get_program_list_info(0);
    assert_eq!(code, 0);
    assert_eq!(list.unwrap().program_count, 3);

    assert_eq!(bridge.get_selected_unit(), 0);
    assert_eq!(bridge.select_unit(2), 0);
    assert_eq!(bridge.get_selected_unit(), 2);
    assert_eq!(bridge.select_unit(9), 2);
    assert_eq!(bridge.get_selected_unit(), 2);
}

#[test]
fn changes_apply_last_point_per_parameter() {
    let mut params = ParameterContainer::new();
    params.add_parameter(BaseParameter::new(ParameterInfoBuilder::new("Gain", 0).build()));
    params.add_parameter(BaseParameter::new(ParameterInfoBuilder::new("Bypass", 2).build()));

    let mut changes = ParameterChanges::new();
    let gi = changes.add_parameter_data(0);
    changes.queues[gi].add_point(0, NormalizedValue::from_bits(0.1f64.to_bits()));
    changes.queues[gi].add_point(48, NormalizedValue::from_bits(0.9f64.to_bits()));
    // An id no parameter carries is passed over.
    let si = changes.add_parameter_data(7);
    changes.queues[si].add_point(0, NormalizedValue::from_bits(1));
    // A queue with no points is passed over too.
    let _ = changes.add_parameter_data(2);

    apply_parameter_changes(&mut params, &changes);
    assert_eq!(
        params.get_parameter(0).unwrap().value_normalized.bits,
        0.9f64.to_bits()
    );
    assert_eq!(params.get_parameter(2).unwrap().value_normalized.bits, 0);
}
