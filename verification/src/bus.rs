//! Buses: named, typed ports with a channel layout and an active flag.
//! An audio bus derives its channel count from its speaker-arrangement
//! bitmask; an event bus carries the count directly.

use vstd::prelude::*;

use crate::component::{BusDirection, BusInfo, BusType, MediaType};
use crate::speaker::{get_channel_count, pop_count};

verus! {

/// The mathematical summary of a bus, used by every bus contract.
pub struct BusModel {
    pub name: Seq<char>,
    pub bus_type: BusType,
    pub flags: i32,
    pub active: bool,
    pub channel_count: int,
}

/// The foreign record stores flags unsigned; a bus keeps them as the
/// signed word the builder took.
pub open spec fn flags_as_u32(f: i32) -> u32 {
    f as u32
}

/// What every bus offers: an active flag, mutable metadata, and a copy-out
/// of its description.
pub trait Bus: Sized {
    spec fn model(&self) -> BusModel;

    fn is_active(&self) -> (r: bool)
        ensures
            r == self.model().active,
    ;

    fn set_active(&mut self, state: bool)
        ensures
            final(self).model().active == state,
            final(self).model().name == old(self).model().name,
            final(self).model().bus_type == old(self).model().bus_type,
            final(self).model().flags == old(self).model().flags,
            final(self).model().channel_count == old(self).model().channel_count,
    ;

    fn set_name(&mut self, new_name: &str)
        ensures
            final(self).model().name == new_name@,
            final(self).model().active == old(self).model().active,
            final(self).model().bus_type == old(self).model().bus_type,
            final(self).model().flags == old(self).model().flags,
            final(self).model().channel_count == old(self).model().channel_count,
    ;

    fn set_bus_type(&mut self, new_bus_type: BusType)
        ensures
            final(self).model().bus_type == new_bus_type,
            final(self).model().name == old(self).model().name,
            final(self).model().active == old(self).model().active,
            final(self).model().flags == old(self).model().flags,
            final(self).model().channel_count == old(self).model().channel_count,
    ;

    fn set_flags(&mut self, new_flags: i32)
        ensures
            final(self).model().flags == new_flags,
            final(self).model().name == old(self).model().name,
            final(self).model().active == old(self).model().active,
            final(self).model().bus_type == old(self).model().bus_type,
            final(self).model().channel_count == old(self).model().channel_count,
    ;

    fn get_info(&self, info: &mut BusInfo)
        ensures
            final(info).name@ == self.model().name,
            final(info).bus_type == self.model().bus_type,
            final(info).flags == flags_as_u32(self.model().flags),
            final(info).channel_count == self.model().channel_count,
            final(info).media_type == old(info).media_type,
            final(info).direction == old(info).direction,
    ;
}

/// A bus whose channel layout is a speaker-arrangement bitmask.
pub trait AudioBus: Sized {
    spec fn arrangement_spec(&self) -> u64;

    fn get_speaker_arrangement(&self) -> (r: u64)
        ensures
            r == self.arrangement_spec(),
    ;
}

/// A bus that carries events on a fixed number of channels.
pub trait EventBus: Sized {
    spec fn event_channels_spec(&self) -> i32;

    fn get_channel_count(&self) -> (r: i32)
        ensures
            r == self.event_channels_spec(),
    ;
}

/// The metadata every bus kind shares.
pub struct BaseBus {
    pub name: String,
    pub bus_type: BusType,
    pub flags: i32,
    pub active: bool,
}

impl BaseBus {
    /// A fresh inactive bus with the given metadata.
    pub fn new(name: &str, bus_type: BusType, flags: i32) -> (r: Box<Self>)
        ensures
            r.name@ == name@,
            r.bus_type == bus_type,
            r.flags == flags,
            r.active == false,
    {
        Box::new(BaseBus { name: name.to_string(), bus_type, flags, active: false })
    }
}

/// An audio bus: shared metadata plus its speaker arrangement.  Its
/// channel count is the population count of the arrangement.
pub struct BaseAudioBus {
    pub inner: Box<BaseBus>,
    pub speaker_arr: u64,
}

impl BaseAudioBus {
    /// A fresh inactive audio bus with the given arrangement.
    pub fn new(name: &str, bus_type: BusType, flags: i32, arr: u64) -> (r: Box<Self>)
        ensures
            r.model() == (BusModel {
                name: name@,
                bus_type,
                flags,
                active: false,
                channel_count: pop_count(arr) as int,
            }),
            r.speaker_arr == arr,
    {
        Box::new(BaseAudioBus { inner: BaseBus::new(name, bus_type, flags), speaker_arr: arr })
    }
}

impl Bus for BaseAudioBus {
    open spec fn model(&self) -> BusModel {
        BusModel {
            name: self.inner.name@,
            bus_type: self.inner.bus_type,
            flags: self.inner.flags,
            active: self.inner.active,
            channel_count: pop_count(self.speaker_arr) as int,
        }
    }

    fn is_active(&self) -> (r: bool) {
        self.inner.active
    }

    fn set_active(&mut self, state: bool) {
        self.inner.active = state;
    }

    fn set_name(&mut self, new_name: &str) {
        self.inner.name = new_name.to_string();
    }

    fn set_bus_type(&mut self, new_bus_type: BusType) {
        self.inner.bus_type = new_bus_type;
    }

    fn set_flags(&mut self, new_flags: i32) {
        self.inner.flags = new_flags;
    }

    fn get_info(&self, info: &mut BusInfo) {
        info.channel_count = get_channel_count(self.speaker_arr);
        info.name = self.inner.name.clone();
        info.bus_type = self.inner.bus_type;
        info.flags = self.inner.flags as u32;
    }
}

impl AudioBus for BaseAudioBus {
    open spec fn arrangement_spec(&self) -> u64 {
        self.speaker_arr
    }

    fn get_speaker_arrangement(&self) -> (r: u64) {
        self.speaker_arr
    }
}

/// An event bus: shared metadata plus a direct channel count.
pub struct BaseEventBus {
    pub inner: Box<BaseBus>,
    pub channel_count: i32,
}

impl BaseEventBus {
    /// A fresh inactive event bus with the given channel count.
    pub fn new(name: &str, bus_type: BusType, flags: i32, channel_count: i32) -> (r: Box<Self>)
        ensures
            r.model() == (BusModel {
                name: name@,
                bus_type,
                flags,
                active: false,
                channel_count: channel_count as int,
            }),
    {
        Box::new(BaseEventBus { inner: BaseBus::new(name, bus_type, flags), channel_count })
    }
}

impl Bus for BaseEventBus {
    open spec fn model(&self) -> BusModel {
        BusModel {
            name: self.inner.name@,
            bus_type: self.inner.bus_type,
            flags: self.inner.flags,
            active: self.inner.active,
            channel_count: self.channel_count as int,
        }
    }

    fn is_active(&self) -> (r: bool) {
        self.inner.active
    }

    fn set_active(&mut self, state: bool) {
        self.inner.active = state;
    }

    fn set_name(&mut self, new_name: &str) {
        self.inner.name = new_name.to_string();
    }

    fn set_bus_type(&mut self, new_bus_type: BusType) {
        self.inner.bus_type = new_bus_type;
    }

    fn set_flags(&mut self, new_flags: i32) {
        self.inner.flags = new_flags;
    }

    fn get_info(&self, info: &mut BusInfo) {
        info.channel_count = self.channel_count;
        info.name = self.inner.name.clone();
        info.bus_type = self.inner.bus_type;
        info.flags = self.inner.flags as u32;
    }
}

impl EventBus for BaseEventBus {
    open spec fn event_channels_spec(&self) -> i32 {
        self.channel_count
    }

    fn get_channel_count(&self) -> (r: i32) {
        self.channel_count
    }
}

/// One bus of either kind, stored uniformly in a bus list and narrowed
/// back to its kind on demand.
pub enum BusEntry {
    Audio(BaseAudioBus),
    Event(BaseEventBus),
}

impl BusEntry {
    /// This entry as an audio bus, if it is one.
    pub fn as_audio_bus(&self) -> (r: Option<&BaseAudioBus>)
        ensures
            match *self {
                BusEntry::Audio(b) => r matches Some(p) && *p == b,
                BusEntry::Event(_) => r is None,
            },
    {
        match self {
            BusEntry::Audio(b) => Some(b),
            BusEntry::Event(_) => None,
        }
    }

    /// This entry as an event bus, if it is one.
    pub fn as_event_bus(&self) -> (r: Option<&BaseEventBus>)
        ensures
            match *self {
                BusEntry::Event(b) => r matches Some(p) && *p == b,
                BusEntry::Audio(_) => r is None,
            },
    {
        match self {
            BusEntry::Event(b) => Some(b),
            BusEntry::Audio(_) => None,
        }
    }
}

impl Bus for BusEntry {
    open spec fn model(&self) -> BusModel {
        match *self {
            BusEntry::Audio(b) => b.model(),
            BusEntry::Event(b) => b.model(),
        }
    }

    fn is_active(&self) -> (r: bool) {
        match self {
            BusEntry::Audio(b) => b.is_active(),
            BusEntry::Event(b) => b.is_active(),
        }
    }

    fn set_active(&mut self, state: bool) {
        match self {
            BusEntry::Audio(b) => b.set_active(state),
            BusEntry::Event(b) => b.set_active(state),
        }
    }

    fn set_name(&mut self, new_name: &str) {
        match self {
            BusEntry::Audio(b) => b.set_name(new_name),
            BusEntry::Event(b) => b.set_name(new_name),
        }
    }

    fn set_bus_type(&mut self, new_bus_type: BusType) {
        match self {
            BusEntry::Audio(b) => b.set_bus_type(new_bus_type),
            BusEntry::Event(b) => b.set_bus_type(new_bus_type),
        }
    }

    fn set_flags(&mut self, new_flags: i32) {
        match self {
            BusEntry::Audio(b) => b.set_flags(new_flags),
            BusEntry::Event(b) => b.set_flags(new_flags),
        }
    }

    fn get_info(&self, info: &mut BusInfo) {
        match self {
            BusEntry::Audio(b) => b.get_info(info),
            BusEntry::Event(b) => b.get_info(info),
        }
    }
}

/// The buses of one media type and direction, in declaration order.
pub struct BusVec {
    pub inner: Vec<BusEntry>,
    pub type_: MediaType,
    pub direction: BusDirection,
}

impl BusVec {
    /// A fresh empty bus list for the given media type and direction.
    pub fn new(type_: MediaType, direction: BusDirection) -> (r: Self)
        ensures
            r.inner@.len() == 0,
            r.type_ == type_,
            r.direction == direction,
    {
        BusVec { inner: Vec::new(), type_, direction }
    }

    /// The buses, in declaration order.
    pub fn get_vec(&self) -> (r: &Vec<BusEntry>)
        ensures
            r == &self.inner,
    {
        &self.inner
    }

    /// The buses, in declaration order, for mutation.
    pub fn get_vec_mut(&mut self) -> (r: &mut Vec<BusEntry>)
        ensures
            *r == old(self).inner,
            final(self).inner == *final(r),
            final(self).type_ == old(self).type_,
            final(self).direction == old(self).direction,
    {
        &mut self.inner
    }
}

} // verus!
