//! A safe bridging layer for a COM-style, vtable-based audio-plugin protocol:
//! result-code vocabulary, 128-bit class identifiers, bus and parameter
//! models, capability traits, and the defensive marshaling rules that turn
//! foreign calls into safe trait calls and back.

pub mod audio_processor;
pub mod bus;
pub mod common;
pub mod component;
pub mod edit_controller;
pub mod events;
pub mod factory;
pub mod io;
pub mod marshal;
pub mod parameter_changes;
pub mod parameters;
pub mod plugin;
pub mod plugin_base;
pub mod refcount;
pub mod speaker;
pub mod stream;
pub mod text;
pub mod types;
pub mod unit;
pub mod unit_info;
pub mod unknown;

pub use audio_processor::{
    AudioProcessor, InputAudioBusBuffer, OutputAudioBusBuffer, ProcessMode, ProcessSetup,
    SymbolicSampleSize,
};
pub use bus::{
    AudioBus, BaseAudioBus, BaseBus, BaseEventBus, Bus, BusEntry, BusModel, BusVec, EventBus,
};
pub use common::{Category, ClassInfo, ClassInfoBuilder, FxSubcategory, UID};
pub use component::{BusDirection, BusInfo, BusType, Component, IoMode, MediaType, RoutingInfo};
pub use edit_controller::{EditController, MidiMapping};
pub use events::{Event, EventKind, EventList, EventType};
pub use factory::{BaseFactory, FactoryInfo};
pub use io::{AudioBusBuilder, EventBusBuilder, IO};
pub use marshal::{ComponentBridge, EditControllerBridge, FactoryBridge, ProcessRoute};
pub use parameter_changes::{apply_parameter_changes, ParamValuePoint, ParamValueQueue, ParameterChanges};
pub use parameters::{
    BaseParameter, NormalizedValue, ParameterContainer, ParameterFlag, ParameterInfo,
    ParameterInfoBuilder,
};
pub use plugin::{
    initialize_twice, state_round_trip, terminate_then_query, BaseComponent, BaseEditController,
};
pub use plugin_base::PluginBase;
pub use refcount::{query_interface, RefCount};
pub use speaker::{get_channel_count, EMPTY, MONO, STEREO};
pub use stream::{ByteStream, SeekMode};
pub use types::PluginResult;
pub use unit::{ProgramList, Unit, UnitBuilder, NO_PARENT_UNIT_ID, NO_PROGRAM_LIST_ID, ROOT_UNIT_ID};
pub use unit_info::UnitInfo;
pub use unknown::{ResultErr, ResultOk};
