//! A component's bus tables: audio and event buses, each split by
//! direction, with registration, clearing, and defensive activation by
//! foreign-supplied indices.

use vstd::prelude::*;

use crate::bus::{BaseAudioBus, BaseBus, BaseEventBus, Bus, BusEntry, BusVec};
use crate::component::{
    BusDirection, BusType, MediaType, AUDIO_CODE, EVENT_CODE, INPUT_CODE,
};
use crate::types::PluginResult;

verus! {

/// The flag a builder-made bus starts with: active by default.
pub const DEFAULT_ACTIVE_FLAG: i32 = 1;

/// Holds between the bus list before and after one bus was activated or
/// deactivated: only the chosen bus's active flag changed.
pub open spec fn activated(pre: Seq<BusEntry>, post: Seq<BusEntry>, index: int, state: bool) -> bool {
    &&& post.len() == pre.len()
    &&& forall|i: int| 0 <= i < pre.len() && i != index ==> post[i] == pre[i]
    &&& post[index].model().active == state
    &&& post[index].model().name == pre[index].model().name
    &&& post[index].model().bus_type == pre[index].model().bus_type
    &&& post[index].model().flags == pre[index].model().flags
    &&& post[index].model().channel_count == pre[index].model().channel_count
}

/// The four bus tables of one component.
pub struct IO {
    pub audio_inputs: BusVec,
    pub audio_outputs: BusVec,
    pub event_inputs: BusVec,
    pub event_outputs: BusVec,
}

impl IO {
    /// Four empty bus tables.
    pub fn new() -> (r: Self)
        ensures
            r.audio_inputs.inner@.len() == 0,
            r.audio_outputs.inner@.len() == 0,
            r.event_inputs.inner@.len() == 0,
            r.event_outputs.inner@.len() == 0,
            r.audio_inputs.type_ == MediaType::Audio,
            r.audio_inputs.direction == BusDirection::Input,
            r.audio_outputs.type_ == MediaType::Audio,
            r.audio_outputs.direction == BusDirection::Output,
            r.event_inputs.type_ == MediaType::Event,
            r.event_inputs.direction == BusDirection::Input,
            r.event_outputs.type_ == MediaType::Event,
            r.event_outputs.direction == BusDirection::Output,
    {
        IO {
            audio_inputs: BusVec::new(MediaType::Audio, BusDirection::Input),
            audio_outputs: BusVec::new(MediaType::Audio, BusDirection::Output),
            event_inputs: BusVec::new(MediaType::Event, BusDirection::Input),
            event_outputs: BusVec::new(MediaType::Event, BusDirection::Output),
        }
    }

    /// Appends an audio input bus.
    pub fn add_audio_input(&mut self, audio_bus: Box<BaseAudioBus>)
        ensures
            final(self).audio_inputs.inner@ == old(self).audio_inputs.inner@.push(
                BusEntry::Audio(*audio_bus),
            ),
            final(self).audio_inputs.type_ == old(self).audio_inputs.type_,
            final(self).audio_inputs.direction == old(self).audio_inputs.direction,
            final(self).audio_outputs == old(self).audio_outputs,
            final(self).event_inputs == old(self).event_inputs,
            final(self).event_outputs == old(self).event_outputs,
    {
        self.audio_inputs.inner.push(BusEntry::Audio(*audio_bus));
    }

    /// Appends an audio output bus.
    pub fn add_audio_output(&mut self, audio_bus: Box<BaseAudioBus>)
        ensures
            final(self).audio_outputs.inner@ == old(self).audio_outputs.inner@.push(
                BusEntry::Audio(*audio_bus),
            ),
            final(self).audio_outputs.type_ == old(self).audio_outputs.type_,
            final(self).audio_outputs.direction == old(self).audio_outputs.direction,
            final(self).audio_inputs == old(self).audio_inputs,
            final(self).event_inputs == old(self).event_inputs,
            final(self).event_outputs == old(self).event_outputs,
    {
        self.audio_outputs.inner.push(BusEntry::Audio(*audio_bus));
    }

    /// Appends an event input bus.
    pub fn add_event_input(&mut self, event_bus: Box<BaseEventBus>)
        ensures
            final(self).event_inputs.inner@ == old(self).event_inputs.inner@.push(
                BusEntry::Event(*event_bus),
            ),
            final(self).event_inputs.type_ == old(self).event_inputs.type_,
            final(self).event_inputs.direction == old(self).event_inputs.direction,
            final(self).audio_inputs == old(self).audio_inputs,
            final(self).audio_outputs == old(self).audio_outputs,
            final(self).event_outputs == old(self).event_outputs,
    {
        self.event_inputs.inner.push(BusEntry::Event(*event_bus));
    }

    /// Appends an event output bus.
    pub fn add_event_output(&mut self, event_bus: Box<BaseEventBus>)
        ensures
            final(self).event_outputs.inner@ == old(self).event_outputs.inner@.push(
                BusEntry::Event(*event_bus),
            ),
            final(self).event_outputs.type_ == old(self).event_outputs.type_,
            final(self).event_outputs.direction == old(self).event_outputs.direction,
            final(self).audio_inputs == old(self).audio_inputs,
            final(self).audio_outputs == old(self).audio_outputs,
            final(self).event_inputs == old(self).event_inputs,
    {
        self.event_outputs.inner.push(BusEntry::Event(*event_bus));
    }

    /// Removes all audio input buses.
    pub fn clear_audio_inputs(&mut self)
        ensures
            final(self).audio_inputs.inner@.len() == 0,
            final(self).audio_inputs.type_ == old(self).audio_inputs.type_,
            final(self).audio_inputs.direction == old(self).audio_inputs.direction,
            final(self).audio_outputs == old(self).audio_outputs,
            final(self).event_inputs == old(self).event_inputs,
            final(self).event_outputs == old(self).event_outputs,
    {
        self.audio_inputs.inner.clear();
    }

    /// Removes all audio output buses.
    pub fn clear_audio_outputs(&mut self)
        ensures
            final(self).audio_outputs.inner@.len() == 0,
            final(self).audio_outputs.type_ == old(self).audio_outputs.type_,
            final(self).audio_outputs.direction == old(self).audio_outputs.direction,
            final(self).audio_inputs == old(self).audio_inputs,
            final(self).event_inputs == old(self).event_inputs,
            final(self).event_outputs == old(self).event_outputs,
    {
        self.audio_outputs.inner.clear();
    }

    /// Removes all event input buses.
    pub fn clear_event_inputs(&mut self)
        ensures
            final(self).event_inputs.inner@.len() == 0,
            final(self).event_inputs.type_ == old(self).event_inputs.type_,
            final(self).event_inputs.direction == old(self).event_inputs.direction,
            final(self).audio_inputs == old(self).audio_inputs,
            final(self).audio_outputs == old(self).audio_outputs,
            final(self).event_outputs == old(self).event_outputs,
    {
        self.event_inputs.inner.clear();
    }

    /// Removes all event output buses.
    pub fn clear_event_outputs(&mut self)
        ensures
            final(self).event_outputs.inner@.len() == 0,
            final(self).event_outputs.type_ == old(self).event_outputs.type_,
            final(self).event_outputs.direction == old(self).event_outputs.direction,
            final(self).audio_inputs == old(self).audio_inputs,
            final(self).audio_outputs == old(self).audio_outputs,
            final(self).event_inputs == old(self).event_inputs,
    {
        self.event_outputs.inner.clear();
    }

    /// Which bus table a foreign media-type code selects: the audio or the
    /// event tables, or none for an undefined code.  Any direction code
    /// other than the input code selects the output table.
    pub open spec fn selects_table(type_: i32) -> bool {
        type_ == AUDIO_CODE || type_ == EVENT_CODE
    }

    pub open spec fn selected_table(self, type_: i32, dir: i32) -> Seq<BusEntry>
        recommends
            IO::selects_table(type_),
    {
        if type_ == AUDIO_CODE {
            if dir == INPUT_CODE {
                self.audio_inputs.inner@
            } else {
                self.audio_outputs.inner@
            }
        } else {
            if dir == INPUT_CODE {
                self.event_inputs.inner@
            } else {
                self.event_outputs.inner@
            }
        }
    }

    /// Holds between two states of the tables when at most the table the
    /// codes select changed, and even its media type and direction stayed.
    pub open spec fn only_table_changed(pre: IO, post: IO, type_: i32, dir: i32) -> bool {
        &&& (!(type_ == AUDIO_CODE && dir == INPUT_CODE) ==> post.audio_inputs
            == pre.audio_inputs)
        &&& (!(type_ == AUDIO_CODE && dir != INPUT_CODE) ==> post.audio_outputs
            == pre.audio_outputs)
        &&& (!(type_ == EVENT_CODE && dir == INPUT_CODE) ==> post.event_inputs
            == pre.event_inputs)
        &&& (!(type_ == EVENT_CODE && dir != INPUT_CODE) ==> post.event_outputs
            == pre.event_outputs)
        &&& post.audio_inputs.type_ == pre.audio_inputs.type_
        &&& post.audio_inputs.direction == pre.audio_inputs.direction
        &&& post.audio_outputs.type_ == pre.audio_outputs.type_
        &&& post.audio_outputs.direction == pre.audio_outputs.direction
        &&& post.event_inputs.type_ == pre.event_inputs.type_
        &&& post.event_inputs.direction == pre.event_inputs.direction
        &&& post.event_outputs.type_ == pre.event_outputs.type_
        &&& post.event_outputs.direction == pre.event_outputs.direction
    }

    /// Sets or clears one bus's active flag, defensively: an undefined
    /// media-type code or an out-of-range index is rejected with the
    /// invalid-argument outcome and changes nothing.
    pub fn activate_bus(&mut self, type_: i32, dir: i32, index: i32, state: u8) -> (r: PluginResult)
        ensures
            !IO::selects_table(type_) ==> r == PluginResult::InvalidArgument && *final(self) == *old(self),
            IO::selects_table(type_) && !(0 <= index < old(self).selected_table(type_, dir).len())
                ==> r == PluginResult::InvalidArgument && *final(self) == *old(self),
            IO::selects_table(type_) && 0 <= index < old(self).selected_table(type_, dir).len()
                ==> {
                &&& r == PluginResult::ResultTrue
                &&& activated(
                    old(self).selected_table(type_, dir),
                    final(self).selected_table(type_, dir),
                    index as int,
                    state != 0,
                )
                &&& IO::only_table_changed(*old(self), *final(self), type_, dir)
            },
    {
        if type_ == AUDIO_CODE {
            if dir == INPUT_CODE {
                activate_in_list(&mut self.audio_inputs, index, state)
            } else {
                activate_in_list(&mut self.audio_outputs, index, state)
            }
        } else if type_ == EVENT_CODE {
            if dir == INPUT_CODE {
                activate_in_list(&mut self.event_inputs, index, state)
            } else {
                activate_in_list(&mut self.event_outputs, index, state)
            }
        } else {
            PluginResult::InvalidArgument
        }
    }
}

fn activate_in_list(list: &mut BusVec, index: i32, state: u8) -> (r: PluginResult)
    ensures
        !(0 <= index < old(list).inner@.len()) ==> r == PluginResult::InvalidArgument
            && *final(list) == *old(list),
        0 <= index < old(list).inner@.len() ==> r == PluginResult::ResultTrue && activated(
            old(list).inner@,
            final(list).inner@,
            index as int,
            state != 0,
        ) && final(list).type_ == old(list).type_ && final(list).direction == old(list).direction,
{
    if index < 0 || index as usize >= list.inner.len() {
        return PluginResult::InvalidArgument;
    }
    let bus = &mut list.inner[index as usize];
    bus.set_active(state != 0);
    PluginResult::ResultTrue
}

/// Builds an audio bus: main kind and active-by-default flags unless
/// overridden.
pub struct AudioBusBuilder {
    pub inner: BaseBus,
    pub speaker_arr: u64,
}

impl AudioBusBuilder {
    pub fn new(name: &str, arr: u64) -> (r: Self)
        ensures
            r.inner.name@ == name@,
            r.inner.bus_type == BusType::Main,
            r.inner.flags == DEFAULT_ACTIVE_FLAG,
            r.inner.active == false,
            r.speaker_arr == arr,
    {
        AudioBusBuilder {
            inner: BaseBus {
                name: name.to_string(),
                bus_type: BusType::Main,
                flags: DEFAULT_ACTIVE_FLAG,
                active: false,
            },
            speaker_arr: arr,
        }
    }

    pub fn bus_type(self, bus_type: BusType) -> (r: Self)
        ensures
            r.inner.bus_type == bus_type,
            r.inner.name == self.inner.name,
            r.inner.flags == self.inner.flags,
            r.inner.active == self.inner.active,
            r.speaker_arr == self.speaker_arr,
    {
        let mut out = self;
        out.inner.bus_type = bus_type;
        out
    }

    pub fn build(&self) -> (r: Box<BaseAudioBus>)
        ensures
            r.inner.name == self.inner.name,
            r.inner.bus_type == self.inner.bus_type,
            r.inner.flags == self.inner.flags,
            r.inner.active == self.inner.active,
            r.speaker_arr == self.speaker_arr,
    {
        Box::new(
            BaseAudioBus {
                inner: Box::new(
                    BaseBus {
                        name: self.inner.name.clone(),
                        bus_type: self.inner.bus_type,
                        flags: self.inner.flags,
                        active: self.inner.active,
                    },
                ),
                speaker_arr: self.speaker_arr,
            },
        )
    }
}

/// Builds an event bus: main kind and active-by-default flags unless
/// overridden.
pub struct EventBusBuilder {
    pub inner: BaseBus,
    pub channel_count: i32,
}

impl EventBusBuilder {
    pub fn new(name: &str, channel_count: i32) -> (r: Self)
        ensures
            r.inner.name@ == name@,
            r.inner.bus_type == BusType::Main,
            r.inner.flags == DEFAULT_ACTIVE_FLAG,
            r.inner.active == false,
            r.channel_count == channel_count,
    {
        EventBusBuilder {
            inner: BaseBus {
                name: name.to_string(),
                bus_type: BusType::Main,
                flags: DEFAULT_ACTIVE_FLAG,
                active: false,
            },
            channel_count,
        }
    }

    pub fn bus_type(self, bus_type: BusType) -> (r: Self)
        ensures
            r.inner.bus_type == bus_type,
            r.inner.name == self.inner.name,
            r.inner.flags == self.inner.flags,
            r.inner.active == self.inner.active,
            r.channel_count == self.channel_count,
    {
        let mut out = self;
        out.inner.bus_type = bus_type;
        out
    }

    pub fn build(&self) -> (r: Box<BaseEventBus>)
        ensures
            r.inner.name == self.inner.name,
            r.inner.bus_type == self.inner.bus_type,
            r.inner.flags == self.inner.flags,
            r.inner.active == self.inner.active,
            r.channel_count == self.channel_count,
    {
        Box::new(
            BaseEventBus {
                inner: Box::new(
                    BaseBus {
                        name: self.inner.name.clone(),
                        bus_type: self.inner.bus_type,
                        flags: self.inner.flags,
                        active: self.inner.active,
                    },
                ),
                channel_count: self.channel_count,
            },
        )
    }
}

} // verus!
