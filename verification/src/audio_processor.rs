//! The audio-processor capability: sample-size negotiation, bus-layout
//! negotiation, latency and tail reporting, and the processing setup.
//! The per-sample processing itself operates on floating-point buffers
//! and lives with the unverified embedding.

use vstd::prelude::*;

use crate::component::{BusDirection, Component, MediaType};
use crate::speaker::pop_count;

verus! {

pub const SAMPLE32_CODE: i32 = 0;

pub const SAMPLE64_CODE: i32 = 1;

pub const REALTIME_CODE: i32 = 0;

pub const PREFETCH_CODE: i32 = 1;

pub const OFFLINE_CODE: i32 = 2;

/// The width of one sample: 32 or 64 bits.
#[derive(Clone, Copy, Debug, PartialEq, Eq, Structural)]
pub enum SymbolicSampleSize {
    Sample32,
    Sample64,
}

impl SymbolicSampleSize {
    pub open spec fn is_valid_spec(size: i32) -> bool {
        size == SAMPLE32_CODE || size == SAMPLE64_CODE
    }

    /// Whether a foreign integer names a defined sample width.
    pub fn is_valid(size: i32) -> (r: bool)
        ensures
            r == SymbolicSampleSize::is_valid_spec(size),
    {
        size == SAMPLE32_CODE || size == SAMPLE64_CODE
    }

    pub open spec fn from_code_spec(size: i32) -> SymbolicSampleSize {
        if size == SAMPLE32_CODE {
            SymbolicSampleSize::Sample32
        } else {
            SymbolicSampleSize::Sample64
        }
    }

    /// The sample width a valid foreign integer names.
    pub fn from_code(size: i32) -> (r: SymbolicSampleSize)
        requires
            SymbolicSampleSize::is_valid_spec(size),
        ensures
            r == SymbolicSampleSize::from_code_spec(size),
    {
        if size == SAMPLE32_CODE {
            SymbolicSampleSize::Sample32
        } else {
            SymbolicSampleSize::Sample64
        }
    }
}

/// How the host drives processing: live, read-ahead, or offline.
#[derive(Clone, Copy, Debug, PartialEq, Eq, Structural)]
pub enum ProcessMode {
    Realtime,
    Prefetch,
    Offline,
}

impl ProcessMode {
    pub open spec fn is_valid_spec(mode: i32) -> bool {
        mode == REALTIME_CODE || mode == PREFETCH_CODE || mode == OFFLINE_CODE
    }

    /// Whether a foreign integer names a defined process mode.
    pub fn is_valid(mode: i32) -> (r: bool)
        ensures
            r == ProcessMode::is_valid_spec(mode),
    {
        mode == REALTIME_CODE || mode == PREFETCH_CODE || mode == OFFLINE_CODE
    }

    pub open spec fn from_code_spec(mode: i32) -> ProcessMode {
        if mode == REALTIME_CODE {
            ProcessMode::Realtime
        } else if mode == PREFETCH_CODE {
            ProcessMode::Prefetch
        } else {
            ProcessMode::Offline
        }
    }

    /// The process mode a valid foreign integer names.
    pub fn from_code(mode: i32) -> (r: ProcessMode)
        requires
            ProcessMode::is_valid_spec(mode),
        ensures
            r == ProcessMode::from_code_spec(mode),
    {
        if mode == REALTIME_CODE {
            ProcessMode::Realtime
        } else if mode == PREFETCH_CODE {
            ProcessMode::Prefetch
        } else {
            ProcessMode::Offline
        }
    }
}

/// The negotiated processing setup.  The sample rate is a 64-bit
/// floating-point number carried as its raw bit pattern: this layer never
/// computes on it.
pub struct ProcessSetup {
    pub process_mode: ProcessMode,
    pub symbolic_sample_size: SymbolicSampleSize,
    pub max_samples_per_block: i32,
    pub sample_rate_bits: u64,
}

/// A borrowed view of one input bus's channel buffers for one processing
/// call: per-channel sample slices of equal length, plus the silence
/// flags, one bit per channel.
pub struct InputAudioBusBuffer<T> {
    pub silence_flags: u64,
    pub buffers: Vec<Vec<T>>,
    pub num_samples: usize,
}

impl<T> InputAudioBusBuffer<T> {
    /// How many channels this bus carries.
    pub fn len(&self) -> (r: usize)
        ensures
            r == self.buffers@.len(),
    {
        self.buffers.len()
    }

    /// One channel's samples.
    pub fn get(&self, index: usize) -> (r: &Vec<T>)
        requires
            index < self.buffers@.len(),
        ensures
            r == &self.buffers@[index as int],
    {
        &self.buffers[index]
    }
}

/// A borrowed view of one output bus's channel buffers for one processing
/// call.
pub struct OutputAudioBusBuffer<T> {
    pub silence_flags: u64,
    pub buffers: Vec<Vec<T>>,
    pub num_samples: usize,
}

impl<T> OutputAudioBusBuffer<T> {
    /// How many channels this bus carries.
    pub fn len(&self) -> (r: usize)
        ensures
            r == self.buffers@.len(),
    {
        self.buffers.len()
    }

    /// One channel's samples, for writing.
    pub fn get_mut(&mut self, index: usize) -> (r: &mut Vec<T>)
        requires
            index < old(self).buffers@.len(),
        ensures
            *r == old(self).buffers@[index as int],
            final(self).buffers@ == old(self).buffers@.update(index as int, *final(r)),
            final(self).silence_flags == old(self).silence_flags,
            final(self).num_samples == old(self).num_samples,
    {
        &mut self.buffers[index]
    }
}

/// The audio-processor capability: everything about processing except the
/// per-sample arithmetic, which operates on floating-point buffers and is
/// marshaled by the unverified embedding.
pub trait AudioProcessor: Component {
    /// Whether a pair of proposed bus layouts is accepted.
    spec fn arrangements_accepted_spec(&self, inputs: Seq<u64>, outputs: Seq<u64>) -> bool;

    /// The arrangement of one audio bus; meaningful below the audio bus
    /// count of that direction.
    spec fn audio_arrangement_spec(&self, dir: BusDirection, index: int) -> u64;

    /// Whether a sample width is supported.
    spec fn sample_size_ok_spec(&self, size: SymbolicSampleSize) -> bool;

    /// The processing latency, in samples.
    spec fn latency_spec(&self) -> nat;

    /// The tail length, in samples.
    spec fn tail_spec(&self) -> nat;

    /// Whether a processing setup is accepted.
    spec fn setup_result_spec(&self, setup: ProcessSetup) -> bool;

    /// Whether switching processing on or off is accepted.
    spec fn processing_result_spec(&self, state: bool) -> bool;

    /// Accepts or rejects a pair of proposed bus layouts.
    fn set_bus_arrangements(&mut self, inputs: &Vec<u64>, outputs: &Vec<u64>) -> (r: bool)
        ensures
            r == old(self).arrangements_accepted_spec(inputs@, outputs@),
    ;

    /// The arrangement of one audio bus, if the index is in range.
    fn get_bus_arrangement(&self, dir: &BusDirection, index: usize) -> (r: Option<u64>)
        ensures
            index < self.bus_count_spec(MediaType::Audio, *dir) ==> r == Some(
                self.audio_arrangement_spec(*dir, index as int),
            ),
            index >= self.bus_count_spec(MediaType::Audio, *dir) ==> r is None,
    ;

    fn can_process_sample_size(&self, symbolic_sample_size: &SymbolicSampleSize) -> (r: bool)
        ensures
            r == self.sample_size_ok_spec(*symbolic_sample_size),
    ;

    fn get_latency_samples(&self) -> (r: usize)
        ensures
            r == self.latency_spec(),
    ;

    fn setup_processing(&mut self, setup: &ProcessSetup) -> (r: bool)
        ensures
            r == old(self).setup_result_spec(*setup),
    ;

    fn set_processing(&mut self, state: bool) -> (r: bool)
        ensures
            r == old(self).processing_result_spec(state),
    ;

    fn get_tail_samples(&self) -> (r: usize)
        ensures
            r == self.tail_spec(),
    ;
}

/// The channel count of every audio bus in a layout, by population count
/// of each arrangement.
pub open spec fn channel_counts(arrs: Seq<u64>) -> Seq<nat> {
    arrs.map_values(|a: u64| pop_count(a))
}

} // verus!
