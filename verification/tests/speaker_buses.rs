use vst3::{
    get_channel_count, AudioBusBuilder, BaseAudioBus, BaseEventBus, Bus, BusDirection, BusInfo,
    BusType, BusVec, EventBusBuilder, MediaType, PluginResult, EMPTY, MONO, STEREO, IO,
};

#[test]
fn channel_count_is_the_population_count() {
    assert_eq!(get_channel_count(0), 0);
    assert_eq!(get_channel_count(EMPTY), 0);
    assert_eq!(get_channel_count(1), 1);
    assert_eq!(get_channel_count(MONO), 1);
    assert_eq!(get_channel_count(STEREO), 2);
    assert_eq!(get_channel_count(0xF00F), 8);
    assert_eq!(get_channel_count(u64::MAX), 64);
    assert_eq!(get_channel_count(1u64 << 63), 1);
}

#[test]
fn audio_bus_reports_derived_channel_count() {
    let bus = BaseAudioBus::new("Stereo In", BusType::Main, 1, STEREO);
    let mut info = BusInfo {
        media_type: MediaType::Audio,
        direction: BusDirection::Input,
        channel_count: 0,
        name: String::new(),
        bus_type: BusType::Aux,
        flags: 0,
    };
    bus.get_info(&mut info);
    assert_eq!(info.channel_count, 2);
    assert_eq!(info.name, "Stereo In");
    assert_eq!(info.bus_type, BusType::Main);
    assert_eq!(info.flags, 1);
    assert!(!bus.is_active());
}

#[test]
fn event_bus_reports_declared_channel_count() {
    let bus = BaseEventBus::new("Event In", BusType::Main, 1, 7);
    let mut info = BusInfo {
        media_type: MediaType::Event,
        direction: BusDirection::Input,
        channel_count: 0,
        name: String::new(),
        bus_type: BusType::Main,
        flags: 0,
    };
    bus.get_info(&mut info);
    assert_eq!(info.channel_count, 7);
    assert_eq!(info.name, "Event In");
}

#[test]
fn builders_default_to_main_and_active_flags() {
    let audio = AudioBusBuilder::new("In", STEREO).build();
    assert_eq!(audio.inner.bus_type, BusType::Main);
    assert_eq!(audio.inner.flags, 1);
    assert_eq!(audio.speaker_arr, STEREO);

    let event = EventBusBuilder::new("Ev", 3).bus_type(BusType::Aux).build();
    assert_eq!(event.inner.bus_type, BusType::Aux);
    assert_eq!(event.channel_count, 3);
}

#[test]
fn io_activate_bus_flips_exactly_one_bus() {
    let mut io = IO::new();
    io.add_audio_input(AudioBusBuilder::new("A", STEREO).build());
    io.add_audio_input(AudioBusBuilder::new("B", MONO).build());
    let r = io.activate_bus(0, 0, 1, 1);
    assert_eq!(r, PluginResult::ResultTrue);
    assert!(!io.audio_inputs.get_vec()[0].is_active());
    assert!(io.audio_inputs.get_vec()[1].is_active());
}

#[test]
fn io_activate_bus_rejects_out_of_range_and_bad_codes() {
    let mut io = IO::new();
    io.add_audio_input(AudioBusBuilder::new("A", STEREO).build());
    assert_eq!(io.activate_bus(0, 0, 1, 1), PluginResult::InvalidArgument);
    assert_eq!(io.activate_bus(0, 0, -1, 1), PluginResult::InvalidArgument);
    assert_eq!(io.activate_bus(9, 0, 0, 1), PluginResult::InvalidArgument);
    assert!(!io.audio_inputs.get_vec()[0].is_active());
}

#[test]
fn bus_vec_tracks_type_and_direction() {
    let v = BusVec::new(MediaType::Event, BusDirection::Output);
    assert_eq!(v.type_, MediaType::Event);
    assert_eq!(v.direction, BusDirection::Output);
    assert!(v.get_vec().is_empty());
}
