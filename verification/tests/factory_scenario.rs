use vst3::{
    query_interface, AudioBusBuilder, BaseComponent, BaseEditController, BaseFactory,
    BaseParameter, BusDirection, Category, ClassInfoBuilder, Component, ComponentBridge,
    EventBusBuilder, FactoryBridge, FactoryInfo, FxSubcategory, MediaType, ParameterInfoBuilder,
    ProcessRoute, ProgramList, RefCount, UnitBuilder, NO_PROGRAM_LIST_ID, ROOT_UNIT_ID, UID,
    STEREO,
};

const MANY_INSTANCES: u32 = 0x7FFFFFFF;

fn demo_factory() -> BaseFactory {
    let class = ClassInfoBuilder::new(UID::new([5, 6, 7, 8]))
        .name("AGain Rust")
        .vendor("rust.audio")
        .cardinality(MANY_INSTANCES)
        .category(Category::AudioEffect)
        .subcategories(FxSubcategory::Fx)
        .build();
    let info = FactoryInfo {
        vendor: "rust.audio".to_string(),
        url: "https://rust.audio".to_string(),
        email: "mailto:rust@audio.com".to_string(),
        flags: 16,
    };
    BaseFactory::new(info, vec![class])
}

fn demo_component() -> BaseComponent {
    BaseComponent::new(
        Some(UID::new([1, 2, 3, 4])),
        vec![*AudioBusBuilder::new("Stereo In", STEREO).build()],
        vec![*AudioBusBuilder::new("Stereo Out", STEREO).build()],
        vec![*EventBusBuilder::new("Event In", 1).build()],
        Vec::new(),
        vec![*BaseParameter::new(ParameterInfoBuilder::new("Gain", 0).build())],
    )
}

#[test]
fn factory_scenario_end_to_end() {
    // One registered class of cardinality "many instances", category
    // AudioEffect.
    let factory = FactoryBridge::new(demo_factory());
    assert_eq!(factory.count_classes(), 1);

    let (code, info) = factory.get_class_info(0);
    assert_eq!(code, 0);
    let info = info.unwrap();
    assert_eq!(info.cardinality, MANY_INSTANCES as i32);
    assert_eq!(info.cid, UID::new([5, 6, 7, 8]).to_foreign_bytes());

    // Instantiation by the matching identifier resolves the class...
    let cid = UID::new([5, 6, 7, 8]).to_foreign_bytes();
    let (code, index) = factory.create_instance(cid.as_slice());
    assert_eq!(code, 0);
    assert_eq!(index, Some(0));

    // ... and the embedding wraps a fresh, uninitialized instance.
    let mut bridge = ComponentBridge::new(demo_component());
    assert_eq!(bridge.refs.count, 1);
    assert!(!bridge.inner.initialized);

    // Initialize transitions it and registers the declared buses.
    assert_eq!(bridge.initialize(), 0);
    assert!(bridge.inner.initialized);
    assert_eq!(bridge.inner.get_bus_count(&MediaType::Audio, &BusDirection::Input), 1);
    assert_eq!(bridge.get_bus_count(0, 0), 1);
    assert_eq!(bridge.get_bus_count(0, 1), 1);
    assert_eq!(bridge.get_bus_count(1, 0), 1);
    assert_eq!(bridge.get_bus_count(1, 1), 0);
}

#[test]
fn unknown_identifier_is_refused() {
    let factory = FactoryBridge::new(demo_factory());
    let cid = UID::new([9, 9, 9, 9]).to_foreign_bytes();
    let (code, index) = factory.create_instance(cid.as_slice());
    assert_eq!(code, 1);
    assert_eq!(index, None);
    // Anything but sixteen identifier bytes is an invalid argument.
    let (code, index) = factory.create_instance(&[1, 2, 3]);
    assert_eq!(code, 2);
    assert_eq!(index, None);
    // A negative class index is an invalid argument.
    let (code, info) = factory.get_class_info(-1);
    assert_eq!(code, 2);
    assert!(info.is_none());
}

#[test]
fn factory_info_fields_are_fixed_and_truncated() {
    let factory = FactoryBridge::new(demo_factory());
    let (code, info) = factory.get_factory_info();
    assert_eq!(code, 0);
    assert_eq!(info.vendor.len(), 64);
    assert_eq!(info.url.len(), 256);
    assert_eq!(info.email.len(), 128);
    assert_eq!(&info.vendor[..10], b"rust.audio");
    assert_eq!(info.vendor[10], 0);
    assert_eq!(info.flags, 16);

    let (_, w) = factory.get_class_info_unicode(0);
    let w = w.unwrap();
    assert_eq!(w.name.len(), 64);
    assert_eq!(w.vendor.len(), 64);
    assert_eq!(w.subcategories.len(), 128);
    assert_eq!(&w.subcategories[..2], b"Fx");
    assert_eq!(w.name[0], u16::from(b'A'));
}

#[test]
fn set_host_context_works_exactly_once() {
    let mut factory = FactoryBridge::new(demo_factory());
    assert_eq!(factory.set_host_context(), 0);
    assert_eq!(factory.set_host_context(), 1);
}

#[test]
fn query_interface_dispatches_on_identifiers() {
    let base = UID::new([0, 0, 0, 1]);
    let component_iid = UID::new([0, 0, 0, 2]);
    let processor_iid = UID::new([0, 0, 0, 3]);
    let supported = vec![component_iid, processor_iid];
    let mut refs = RefCount::new();

    let (code, slot) = query_interface(&supported, &base, &base, &mut refs);
    assert_eq!((code, slot), (0, Some(0)));
    assert_eq!(refs.count, 2);

    let (code, slot) = query_interface(&supported, &base, &processor_iid, &mut refs);
    assert_eq!((code, slot), (0, Some(1)));
    assert_eq!(refs.count, 3);

    let stranger = UID::new([9, 9, 9, 9]);
    let (code, slot) = query_interface(&supported, &base, &stranger, &mut refs);
    assert_eq!(code, -1);
    assert_eq!(slot, None);
    assert_eq!(refs.count, 3);
}

#[test]
fn refcount_pairs_balance_in_any_order() {
    let mut refs = RefCount::new();
    // Three handles acquired, dropped in a different order than taken.
    refs.add_ref();
    refs.add_ref();
    assert_eq!(refs.release(), 2);
    refs.add_ref();
    assert_eq!(refs.release(), 2);
    assert_eq!(refs.release(), 1);
    // The object reaches zero only with the owner's final release.
    assert_eq!(refs.release(), 0);
}

#[test]
fn process_route_validates_before_dispatch() {
    assert_eq!(vst3::marshal::process_route(false, 0), ProcessRoute::InvalidData);
    assert_eq!(vst3::marshal::process_route(true, 9), ProcessRoute::InvalidData);
    assert_eq!(vst3::marshal::process_route(true, 0), ProcessRoute::Sample32);
    assert_eq!(vst3::marshal::process_route(true, 1), ProcessRoute::Sample64);
}

#[test]
fn controller_class_id_is_marshaled_in_byte_layout() {
    let mut bridge = ComponentBridge::new(demo_component());
    bridge.initialize();
    let (code, bytes) = bridge.get_controller_class_id();
    assert_eq!(code, 0);
    assert_eq!(bytes.unwrap(), UID::new([1, 2, 3, 4]).to_foreign_bytes());

    let plain = BaseComponent::new(None, Vec::new(), Vec::new(), Vec::new(), Vec::new(), Vec::new());
    let bridge = ComponentBridge::new(plain);
    let (code, bytes) = bridge.get_controller_class_id();
    assert_eq!(code, 1);
    assert!(bytes.is_none());
}

#[test]
fn controller_declares_units() {
    let unit = UnitBuilder::new("Unit1", 1)
        .parent_unit_id(ROOT_UNIT_ID)
        .program_list_id(NO_PROGRAM_LIST_ID)
        .build();
    assert_eq!(unit.id, 1);
    assert_eq!(unit.parent_unit_id, 0);
    assert_eq!(unit.program_list_id, -1);
    assert_eq!(unit.name, "Unit1");
    let ctrl = BaseEditController::new(Vec::new(), vec![unit]);
    assert_eq!(ctrl.units.len(), 1);

    let list = ProgramList::new(3, "Programs", 2);
    assert_eq!(list.id, 3);
    assert_eq!(list.program_count, 2);
}
