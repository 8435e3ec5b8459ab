//! The component-side vocabulary: media kinds, bus directions and kinds,
//! io modes, and the records that describe a bus and a routing.

use vstd::prelude::*;

use crate::bus::{flags_as_u32, BusModel};
use crate::common::UID;
use crate::stream::ByteStream;

verus! {

pub const AUDIO_CODE: i32 = 0;

pub const EVENT_CODE: i32 = 1;

pub const NUM_MEDIA_TYPES_CODE: i32 = 2;

pub const INPUT_CODE: i32 = 0;

pub const OUTPUT_CODE: i32 = 1;

pub const MAIN_CODE: i32 = 0;

pub const AUX_CODE: i32 = 1;

pub const IO_SIMPLE_CODE: i32 = 0;

pub const IO_ADVANCED_CODE: i32 = 1;

pub const IO_OFFLINE_PROCESSING_CODE: i32 = 2;

/// How the host intends to drive the component.
#[derive(Clone, Copy, Debug, PartialEq, Eq, Structural)]
pub enum IoMode {
    Simple,
    Advanced,
    OfflineProcessing,
}

impl IoMode {
    pub open spec fn is_valid_spec(mode: i32) -> bool {
        mode == IO_SIMPLE_CODE || mode == IO_ADVANCED_CODE || mode == IO_OFFLINE_PROCESSING_CODE
    }

    /// Whether a foreign integer names a defined io mode.
    pub fn is_valid(mode: i32) -> (r: bool)
        ensures
            r == IoMode::is_valid_spec(mode),
    {
        mode == IO_SIMPLE_CODE || mode == IO_ADVANCED_CODE || mode == IO_OFFLINE_PROCESSING_CODE
    }

    pub open spec fn from_code_spec(mode: i32) -> IoMode {
        if mode == IO_SIMPLE_CODE {
            IoMode::Simple
        } else if mode == IO_ADVANCED_CODE {
            IoMode::Advanced
        } else {
            IoMode::OfflineProcessing
        }
    }

    /// The io mode a valid foreign integer names.
    pub fn from_code(mode: i32) -> (r: IoMode)
        requires
            IoMode::is_valid_spec(mode),
        ensures
            r == IoMode::from_code_spec(mode),
    {
        if mode == IO_SIMPLE_CODE {
            IoMode::Simple
        } else if mode == IO_ADVANCED_CODE {
            IoMode::Advanced
        } else {
            IoMode::OfflineProcessing
        }
    }
}

/// Whether a bus carries audio samples or events.
#[derive(Clone, Copy, Debug, PartialEq, Eq, Structural)]
pub enum MediaType {
    Audio,
    Event,
    NumMediaTypes,
}

impl MediaType {
    pub open spec fn is_valid_spec(t: i32) -> bool {
        t == AUDIO_CODE || t == EVENT_CODE || t == NUM_MEDIA_TYPES_CODE
    }

    /// Whether a foreign integer names a defined media type.
    pub fn is_valid(t: i32) -> (r: bool)
        ensures
            r == MediaType::is_valid_spec(t),
    {
        t == AUDIO_CODE || t == EVENT_CODE || t == NUM_MEDIA_TYPES_CODE
    }

    pub open spec fn from_code_spec(t: i32) -> MediaType {
        if t == AUDIO_CODE {
            MediaType::Audio
        } else if t == EVENT_CODE {
            MediaType::Event
        } else {
            MediaType::NumMediaTypes
        }
    }

    /// The media type a valid foreign integer names.
    pub fn from_code(t: i32) -> (r: MediaType)
        requires
            MediaType::is_valid_spec(t),
        ensures
            r == MediaType::from_code_spec(t),
    {
        if t == AUDIO_CODE {
            MediaType::Audio
        } else if t == EVENT_CODE {
            MediaType::Event
        } else {
            MediaType::NumMediaTypes
        }
    }

    pub open spec fn code_spec(self) -> i32 {
        match self {
            MediaType::Audio => AUDIO_CODE,
            MediaType::Event => EVENT_CODE,
            MediaType::NumMediaTypes => NUM_MEDIA_TYPES_CODE,
        }
    }

    /// The foreign integer code of this media type.
    pub fn to_code(self) -> (c: i32)
        ensures
            c == self.code_spec(),
    {
        match self {
            MediaType::Audio => AUDIO_CODE,
            MediaType::Event => EVENT_CODE,
            MediaType::NumMediaTypes => NUM_MEDIA_TYPES_CODE,
        }
    }
}

/// Whether a bus feeds the component or is fed by it.
#[derive(Clone, Copy, Debug, PartialEq, Eq, Structural)]
pub enum BusDirection {
    Input,
    Output,
}

impl BusDirection {
    pub open spec fn is_valid_spec(dir: i32) -> bool {
        dir == INPUT_CODE || dir == OUTPUT_CODE
    }

    /// Whether a foreign integer names a defined bus direction.
    pub fn is_valid(dir: i32) -> (r: bool)
        ensures
            r == BusDirection::is_valid_spec(dir),
    {
        dir == INPUT_CODE || dir == OUTPUT_CODE
    }

    pub open spec fn from_code_spec(dir: i32) -> BusDirection {
        if dir == INPUT_CODE {
            BusDirection::Input
        } else {
            BusDirection::Output
        }
    }

    /// The direction a valid foreign integer names.
    pub fn from_code(dir: i32) -> (r: BusDirection)
        requires
            BusDirection::is_valid_spec(dir),
        ensures
            r == BusDirection::from_code_spec(dir),
    {
        if dir == INPUT_CODE {
            BusDirection::Input
        } else {
            BusDirection::Output
        }
    }

    pub open spec fn code_spec(self) -> i32 {
        match self {
            BusDirection::Input => INPUT_CODE,
            BusDirection::Output => OUTPUT_CODE,
        }
    }

    /// The foreign integer code of this direction.
    pub fn to_code(self) -> (c: i32)
        ensures
            c == self.code_spec(),
    {
        match self {
            BusDirection::Input => INPUT_CODE,
            BusDirection::Output => OUTPUT_CODE,
        }
    }
}

/// Whether a bus is a main bus or an auxiliary one.
#[derive(Clone, Copy, Debug, PartialEq, Eq, Structural)]
pub enum BusType {
    Main,
    Aux,
}

impl BusType {
    pub open spec fn from_code_spec(bus_type: i32) -> BusType {
        if bus_type == MAIN_CODE {
            BusType::Main
        } else {
            BusType::Aux
        }
    }

    /// The bus kind a foreign integer names; the main code gives the main
    /// kind, anything else the auxiliary kind.
    pub fn from_code(bus_type: i32) -> (r: BusType)
        ensures
            r == BusType::from_code_spec(bus_type),
    {
        if bus_type == MAIN_CODE {
            BusType::Main
        } else {
            BusType::Aux
        }
    }

    pub open spec fn code_spec(self) -> i32 {
        match self {
            BusType::Main => MAIN_CODE,
            BusType::Aux => AUX_CODE,
        }
    }

    /// The foreign integer code of this bus kind.
    pub fn to_code(self) -> (c: i32)
        ensures
            c == self.code_spec(),
    {
        match self {
            BusType::Main => MAIN_CODE,
            BusType::Aux => AUX_CODE,
        }
    }
}

/// Describes one bus: what it carries, which way, how many channels, and
/// its name, kind and flags.  Copied out on query; owned and mutated only
/// on the safe side.
pub struct BusInfo {
    pub media_type: MediaType,
    pub direction: BusDirection,
    pub channel_count: i32,
    pub name: String,
    pub bus_type: BusType,
    pub flags: u32,
}

/// Describes the routing of one channel of one bus.
pub struct RoutingInfo {
    pub media_type: MediaType,
    pub bus_index: i32,
    pub channel: i32,
}


/// A component: bus topology, activation, routing, and persisted state.
///
/// Each exec method's result is pinned to a spec-level model of the
/// implementation, so the bridge contracts over any implementation are
/// exact.
pub trait Component: crate::plugin_base::PluginBase {
    /// The controller class an instance is paired with, if any.
    spec fn controller_cid_spec(&self) -> Option<UID>;

    /// How many buses of one media type and direction are registered.
    spec fn bus_count_spec(&self, media_type: MediaType, dir: BusDirection) -> nat;

    /// The model of one registered bus; meaningful below the bus count.
    spec fn bus_model_spec(&self, media_type: MediaType, dir: BusDirection, index: int) -> BusModel;

    /// The routing advertised for the component, if any.
    spec fn routing_spec(&self) -> Option<(RoutingInfo, RoutingInfo)>;

    /// Whether the component accepts an io mode.
    spec fn io_mode_result_spec(&self, mode: IoMode) -> bool;

    /// Whether the component accepts being switched to a state.
    spec fn set_active_result_spec(&self, state: bool) -> bool;

    /// The persisted state: one 64-bit value per parameter, in
    /// declaration order.
    spec fn state_values_spec(&self) -> Seq<u64>;

    fn get_controller_class_id(&self) -> (r: Option<&UID>)
        ensures
            self.controller_cid_spec() matches Some(u) ==> (r matches Some(p) && *p == u),
            self.controller_cid_spec() is None ==> r is None,
    ;

    fn set_io_mode(&self, mode: &IoMode) -> (r: bool)
        ensures
            r == self.io_mode_result_spec(*mode),
    ;

    fn get_bus_count(&self, media_type: &MediaType, dir: &BusDirection) -> (r: usize)
        ensures
            r == self.bus_count_spec(*media_type, *dir),
    ;

    fn get_bus_info(&self, media_type: &MediaType, dir: &BusDirection, index: usize) -> (r: Option<
        BusInfo,
    >)
        ensures
            index < self.bus_count_spec(*media_type, *dir) ==> (r matches Some(info) && {
                let m = self.bus_model_spec(*media_type, *dir, index as int);
                &&& info.media_type == *media_type
                &&& info.direction == *dir
                &&& info.name@ == m.name
                &&& info.bus_type == m.bus_type
                &&& info.flags == flags_as_u32(m.flags)
                &&& info.channel_count == m.channel_count
            }),
            index >= self.bus_count_spec(*media_type, *dir) ==> r is None,
    ;

    fn get_routing_info(&self) -> (r: Option<(RoutingInfo, RoutingInfo)>)
        ensures
            r == self.routing_spec(),
    ;

    /// Sets one bus's active flag.  Succeeds exactly when the index is in
    /// range; a failed call changes nothing, a successful one changes
    /// exactly that bus's active flag.
    fn activate_bus(&mut self, media_type: &MediaType, dir: &BusDirection, index: usize, state: bool) -> (r: bool)
        ensures
            r == (index < old(self).bus_count_spec(*media_type, *dir)),
            !r ==> *final(self) == *old(self),
            final(self).initialized() == old(self).initialized(),
            final(self).controller_cid_spec() == old(self).controller_cid_spec(),
            final(self).state_values_spec() == old(self).state_values_spec(),
            forall|m: MediaType, d: BusDirection|
                #[trigger] final(self).bus_count_spec(m, d) == old(self).bus_count_spec(m, d),
            forall|m: MediaType, d: BusDirection, i: int|
                0 <= i < old(self).bus_count_spec(m, d) && !(m == *media_type && d == *dir && i
                    == index as int) ==> #[trigger] final(self).bus_model_spec(m, d, i)
                    == old(self).bus_model_spec(m, d, i),
            r ==> {
                let pre = old(self).bus_model_spec(*media_type, *dir, index as int);
                let post = final(self).bus_model_spec(*media_type, *dir, index as int);
                &&& post.active == state
                &&& post.name == pre.name
                &&& post.bus_type == pre.bus_type
                &&& post.flags == pre.flags
                &&& post.channel_count == pre.channel_count
            },
    ;

    fn set_active(&self, state: bool) -> (r: bool)
        ensures
            r == self.set_active_result_spec(state),
    ;

    /// Restores the persisted state from the stream: one value per
    /// declared parameter, in declaration order.  A stream too short for
    /// the declared count fails and changes nothing.
    fn set_state(&mut self, state: &mut ByteStream) -> (r: bool)
        requires
            old(state).wf(),
        ensures
            final(state).bytes == old(state).bytes,
            final(state).wf(),
            final(self).initialized() == old(self).initialized(),
            old(state).pos + 8 * old(self).state_values_spec().len() <= old(
                state,
            ).bytes@.len() ==> {
                &&& r
                &&& final(self).state_values_spec() == crate::stream::decode_values(
                    old(state).bytes@.skip(old(state).pos as int),
                    old(self).state_values_spec().len(),
                )
                &&& final(state).pos == old(state).pos + 8 * old(self).state_values_spec().len()
            },
            old(state).pos + 8 * old(self).state_values_spec().len() > old(state).bytes@.len()
                ==> !r && *final(self) == *old(self),
    ;

    /// Appends the persisted state to the stream: one value per declared
    /// parameter, in declaration order.
    fn get_state(&self, state: &mut ByteStream) -> (r: bool)
        requires
            old(state).wf(),
            old(state).pos == old(state).bytes@.len(),
            old(state).bytes@.len() + 8 * self.state_values_spec().len() <= usize::MAX,
        ensures
            r,
            final(state).bytes@ == old(state).bytes@ + crate::stream::encode_values(
                self.state_values_spec(),
            ),
            final(state).pos == final(state).bytes@.len(),
            final(state).wf(),
    ;
}

} // verus!
