//! The marshaling layer: one bridge object per foreign multi-interface
//! object, translating each foreign call into one safe trait call and
//! back, defensively.  Raw arguments are validated before use; out-values
//! are produced only on success; fixed-capacity text fields are truncated,
//! never overflowed; the safe result is translated into the foreign
//! return code.  The raw-pointer shims, the mutex around the boxed
//! implementation, and the panic boundary live with the unverified
//! embedding, which hands plain values in and out of these bridges.

use vstd::prelude::*;

use crate::audio_processor::{AudioProcessor, ProcessSetup, SymbolicSampleSize};
use crate::common::{ClassInfo, UID};
use crate::component::{BusDirection, Component, IoMode, MediaType};
use crate::edit_controller::{EditController, MidiMapping};
use crate::unit_info::UnitInfo;
use crate::factory::{find_class, BaseFactory};
use crate::parameters::ParameterInfo;
use crate::plugin_base::PluginBase;
use crate::refcount::RefCount;
use crate::stream::ByteStream;
use crate::text::{fixed_field_spec, narrow_field, utf16_units_of, wide_field};
use crate::unknown::{
    ResultErr, ResultOk, INTERNAL_ERROR_CODE, INVALID_ARGUMENT_CODE, RESULT_FALSE_CODE,
    RESULT_OK_CODE,
};

verus! {

/// The foreign bus record: enums as integers, the name as a fixed field
/// of 128 wide characters.
pub struct ForeignBusInfo {
    pub media_type: i32,
    pub direction: i32,
    pub channel_count: i32,
    pub name: Vec<u16>,
    pub bus_type: i32,
    pub flags: u32,
}

/// The foreign routing record.
pub struct ForeignRoutingInfo {
    pub media_type: i32,
    pub bus_index: i32,
    pub channel: i32,
}

/// The foreign class record: the identifier in its byte layout, the
/// category as a fixed field of 32 bytes, the name as one of 64 bytes.
pub struct ForeignClassInfo {
    pub cid: Vec<u8>,
    pub cardinality: i32,
    pub category: Vec<u8>,
    pub name: Vec<u8>,
}

/// The extended foreign class record: wide name and vendor strings, the
/// subcategory tag, and the class flags.
pub struct ForeignClassInfoW {
    pub cid: Vec<u8>,
    pub cardinality: i32,
    pub category: Vec<u8>,
    pub name: Vec<u16>,
    pub class_flags: u32,
    pub subcategories: Vec<u8>,
    pub vendor: Vec<u16>,
    pub version: Vec<u16>,
    pub sdk_version: Vec<u16>,
}

/// The foreign factory record: narrow vendor, url and email fields.
pub struct ForeignFactoryInfo {
    pub vendor: Vec<u8>,
    pub url: Vec<u8>,
    pub email: Vec<u8>,
    pub flags: i32,
}

/// The foreign parameter record: wide title fields of 128 characters
/// each, an absent title reading as empty, and the default value as its
/// raw bits.
pub struct ForeignParameterInfo {
    pub id: i32,
    pub title: Vec<u16>,
    pub short_title: Vec<u16>,
    pub units: Vec<u16>,
    pub step_count: i32,
    pub default_normalized_value_bits: u64,
    pub unit_id: i32,
    pub flags: i32,
}

/// The units an optional title field is laid out from: an absent title
/// reads as empty.
pub open spec fn opt_title_units(s: Option<String>) -> Seq<u16> {
    match s {
        Some(t) => utf16_units_of(t@),
        None => Seq::empty(),
    }
}

fn opt_wide_field(s: &Option<String>, cap: usize) -> (r: Vec<u16>)
    requires
        cap >= 1,
    ensures
        r@ == fixed_field_spec(opt_title_units(*s), cap as nat, 0u16),
        r@.len() == cap,
{
    match s {
        Some(t) => wide_field(t.as_str(), cap),
        None => {
            proof {
                reveal_strlit("");
            }
            let r = wide_field("", cap);
            proof {
                assert(utf16_units_of(""@) =~= Seq::<u16>::empty());
                assert(fixed_field_spec(utf16_units_of(""@), cap as nat, 0u16)
                    =~= fixed_field_spec(Seq::<u16>::empty(), cap as nat, 0u16));
            }
            r
        },
    }
}

/// What the foreign parameter record must hold for one parameter.
pub open spec fn foreign_parameter_info_spec(r: ForeignParameterInfo, p: ParameterInfo) -> bool {
    &&& r.id == p.id
    &&& r.title@ == fixed_field_spec(utf16_units_of(p.title@), 128, 0u16)
    &&& r.short_title@ == fixed_field_spec(opt_title_units(p.short_title), 128, 0u16)
    &&& r.units@ == fixed_field_spec(opt_title_units(p.units), 128, 0u16)
    &&& r.step_count == p.step_count
    &&& r.default_normalized_value_bits == p.default_normalized_value.bits
    &&& r.unit_id == p.unit_id
    &&& r.flags == p.flags
}

fn foreign_parameter_info(p: &ParameterInfo) -> (r: ForeignParameterInfo)
    ensures
        foreign_parameter_info_spec(r, *p),
{
    ForeignParameterInfo {
        id: p.id,
        title: wide_field(p.title.as_str(), 128),
        short_title: opt_wide_field(&p.short_title, 128),
        units: opt_wide_field(&p.units, 128),
        step_count: p.step_count,
        default_normalized_value_bits: p.default_normalized_value.bits,
        unit_id: p.unit_id,
        flags: p.flags,
    }
}

/// What the basic foreign class record must hold for one class.
pub open spec fn foreign_class_info_spec(r: ForeignClassInfo, c: ClassInfo) -> bool {
    &&& r.cid@ == c.cid.foreign_bytes_spec()
    &&& r.cardinality == c.cardinality as i32
    &&& r.category@ == fixed_field_spec(
        vstd::utf8::encode_utf8(crate::common::category_chars(c.category)),
        32,
        0u8,
    )
    &&& r.name@ == fixed_field_spec(vstd::utf8::encode_utf8(c.name@), 64, 0u8)
}

/// What the extended foreign class record must hold for one class.
pub open spec fn foreign_class_info_w_spec(r: ForeignClassInfoW, c: ClassInfo) -> bool {
    &&& r.cid@ == c.cid.foreign_bytes_spec()
    &&& r.cardinality == c.cardinality as i32
    &&& r.category@ == fixed_field_spec(
        vstd::utf8::encode_utf8(crate::common::category_chars(c.category)),
        32,
        0u8,
    )
    &&& r.name@ == fixed_field_spec(utf16_units_of(c.name@), 64, 0u16)
    &&& r.class_flags == c.class_flags
    &&& r.subcategories@ == fixed_field_spec(
        vstd::utf8::encode_utf8(crate::common::subcategory_chars(c.subcategories)),
        128,
        0u8,
    )
    &&& r.vendor@ == fixed_field_spec(utf16_units_of(c.vendor@), 64, 0u16)
    &&& r.version@ == fixed_field_spec(utf16_units_of(c.version@), 64, 0u16)
    &&& r.sdk_version@ == fixed_field_spec(utf16_units_of(c.sdk_version@), 64, 0u16)
}

/// Lays one class out in the basic foreign record.
pub fn foreign_class_info(c: &ClassInfo) -> (r: ForeignClassInfo)
    ensures
        foreign_class_info_spec(r, *c),
{
    ForeignClassInfo {
        cid: c.cid.to_foreign_bytes(),
        cardinality: c.cardinality as i32,
        category: narrow_field(c.category.as_str(), 32),
        name: narrow_field(c.name.as_str(), 64),
    }
}

/// Lays one class out in the extended foreign record.
pub fn foreign_class_info_w(c: &ClassInfo) -> (r: ForeignClassInfoW)
    ensures
        foreign_class_info_w_spec(r, *c),
{
    ForeignClassInfoW {
        cid: c.cid.to_foreign_bytes(),
        cardinality: c.cardinality as i32,
        category: narrow_field(c.category.as_str(), 32),
        name: wide_field(c.name.as_str(), 64),
        class_flags: c.class_flags,
        subcategories: narrow_field(c.subcategories.as_str(), 128),
        vendor: wide_field(c.vendor.as_str(), 64),
        version: wide_field(c.version.as_str(), 64),
        sdk_version: wide_field(c.sdk_version.as_str(), 64),
    }
}

/// A bridge object exporting the component-side interfaces of one boxed
/// implementation, all sharing one reference count.
pub struct ComponentBridge<C> {
    pub inner: C,
    pub refs: RefCount,
}

impl<C: Component> ComponentBridge<C> {
    /// A fresh bridge with one reference.
    pub fn new(inner: C) -> (r: Self)
        ensures
            r.inner == inner,
            r.refs.count == 1,
    {
        ComponentBridge { inner, refs: RefCount::new() }
    }

    /// Marshals the lifecycle entry: ok exactly when the wrapped
    /// implementation was uninitialized, the false code on a repeated
    /// initialize.  The embedding validates the host context pointer
    /// before this call.
    pub fn initialize(&mut self) -> (r: i32)
        ensures
            r == if !old(self).inner.initialized() {
                RESULT_OK_CODE
            } else {
                RESULT_FALSE_CODE
            },
            final(self).inner.initialized(),
            !old(self).inner.initialized() == false ==> final(self).inner == old(self).inner,
            final(self).refs == old(self).refs,
    {
        if self.inner.initialize() {
            RESULT_OK_CODE
        } else {
            RESULT_FALSE_CODE
        }
    }

    /// Marshals the lifecycle exit: always ok, leaving the wrapped
    /// implementation uninitialized.
    pub fn terminate(&mut self) -> (r: i32)
        ensures
            r == RESULT_OK_CODE,
            !final(self).inner.initialized(),
            final(self).refs == old(self).refs,
    {
        if self.inner.terminate() {
            RESULT_OK_CODE
        } else {
            RESULT_FALSE_CODE
        }
    }

    /// Marshals the controller-class query: the paired controller's
    /// identifier in its foreign byte layout, or the false code when the
    /// component declares none.  The out-value is produced only on
    /// success.
    pub fn get_controller_class_id(&self) -> (r: (i32, Option<Vec<u8>>))
        ensures
            self.inner.controller_cid_spec() matches Some(u) ==> r.0 == RESULT_OK_CODE && (
            r.1 matches Some(b) && b@ == u.foreign_bytes_spec()),
            self.inner.controller_cid_spec() is None ==> r == (
                RESULT_FALSE_CODE,
                None::<Vec<u8>>,
            ),
    {
        match self.inner.get_controller_class_id() {
            Some(u) => (RESULT_OK_CODE, Some(u.to_foreign_bytes())),
            None => (RESULT_FALSE_CODE, None),
        }
    }

    /// Marshals the io-mode call: an undefined mode code is rejected as
    /// an invalid argument before the implementation is reached.
    pub fn set_io_mode(&self, mode: i32) -> (r: i32)
        ensures
            !IoMode::is_valid_spec(mode) ==> r == INVALID_ARGUMENT_CODE,
            IoMode::is_valid_spec(mode) ==> r == if self.inner.io_mode_result_spec(
                IoMode::from_code_spec(mode),
            ) {
                RESULT_OK_CODE
            } else {
                RESULT_FALSE_CODE
            },
    {
        if !IoMode::is_valid(mode) {
            return INVALID_ARGUMENT_CODE;
        }
        let m = IoMode::from_code(mode);
        if self.inner.set_io_mode(&m) {
            RESULT_OK_CODE
        } else {
            RESULT_FALSE_CODE
        }
    }

    /// Marshals the bus-count query.  Undefined media-type or direction
    /// codes are rejected as an invalid argument; a count past the
    /// foreign word reads as zero rather than overflowing it.
    pub fn get_bus_count(&self, type_: i32, dir: i32) -> (r: i32)
        ensures
            !(MediaType::is_valid_spec(type_) && BusDirection::is_valid_spec(dir)) ==> r
                == INVALID_ARGUMENT_CODE,
            MediaType::is_valid_spec(type_) && BusDirection::is_valid_spec(dir) ==> {
                let c = self.inner.bus_count_spec(
                    MediaType::from_code_spec(type_),
                    BusDirection::from_code_spec(dir),
                );
                &&& c > i32::MAX ==> r == 0
                &&& c <= i32::MAX ==> r == c
            },
    {
        if !MediaType::is_valid(type_) || !BusDirection::is_valid(dir) {
            return INVALID_ARGUMENT_CODE;
        }
        let m = MediaType::from_code(type_);
        let d = BusDirection::from_code(dir);
        let count = self.inner.get_bus_count(&m, &d);
        if count > i32::MAX as usize {
            0
        } else {
            count as i32
        }
    }

    /// Marshals the bus-info query.  Undefined codes and negative indices
    /// are rejected as an invalid argument; an index past the count fails
    /// with the false code; the record is produced only on success, its
    /// name truncated into the fixed field, never overflowed.
    pub fn get_bus_info(&self, type_: i32, dir: i32, index: i32) -> (r: (
        i32,
        Option<ForeignBusInfo>,
    ))
        ensures
            !(MediaType::is_valid_spec(type_) && BusDirection::is_valid_spec(dir) && index >= 0)
                ==> r == (INVALID_ARGUMENT_CODE, None::<ForeignBusInfo>),
            MediaType::is_valid_spec(type_) && BusDirection::is_valid_spec(dir) && index >= 0
                ==> {
                let m = MediaType::from_code_spec(type_);
                let d = BusDirection::from_code_spec(dir);
                &&& index >= self.inner.bus_count_spec(m, d) ==> r == (
                    RESULT_FALSE_CODE,
                    None::<ForeignBusInfo>,
                )
                &&& index < self.inner.bus_count_spec(m, d) ==> r.0 == RESULT_OK_CODE && (
                r.1 matches Some(info) && {
                    let model = self.inner.bus_model_spec(m, d, index as int);
                    &&& info.media_type == type_
                    &&& info.direction == dir
                    &&& info.channel_count == model.channel_count
                    &&& info.name@ == fixed_field_spec(utf16_units_of(model.name), 128, 0u16)
                    &&& info.bus_type == model.bus_type.code_spec()
                    &&& info.flags == crate::bus::flags_as_u32(model.flags)
                })
            },
    {
        if !MediaType::is_valid(type_) || !BusDirection::is_valid(dir) || index < 0 {
            return (INVALID_ARGUMENT_CODE, None);
        }
        let m = MediaType::from_code(type_);
        let d = BusDirection::from_code(dir);
        match self.inner.get_bus_info(&m, &d, index as usize) {
            Some(info) => {
                let out = ForeignBusInfo {
                    media_type: type_,
                    direction: dir,
                    channel_count: info.channel_count,
                    name: wide_field(info.name.as_str(), 128),
                    bus_type: info.bus_type.to_code(),
                    flags: info.flags,
                };
                (RESULT_OK_CODE, Some(out))
            },
            None => (RESULT_FALSE_CODE, None),
        }
    }

    /// Marshals the routing query: both records on success, the false
    /// code when the component advertises no routing.
    pub fn get_routing_info(&self) -> (r: (
        i32,
        Option<(ForeignRoutingInfo, ForeignRoutingInfo)>,
    ))
        ensures
            self.inner.routing_spec() matches Some(pair) ==> r.0 == RESULT_OK_CODE && (
            r.1 matches Some(out) && {
                &&& out.0.media_type == pair.0.media_type.code_spec()
                &&& out.0.bus_index == pair.0.bus_index
                &&& out.0.channel == pair.0.channel
                &&& out.1.media_type == pair.1.media_type.code_spec()
                &&& out.1.bus_index == pair.1.bus_index
                &&& out.1.channel == pair.1.channel
            }),
            self.inner.routing_spec() is None ==> r == (
                RESULT_FALSE_CODE,
                None::<(ForeignRoutingInfo, ForeignRoutingInfo)>,
            ),
    {
        match self.inner.get_routing_info() {
            Some(pair) => {
                let in_info = ForeignRoutingInfo {
                    media_type: pair.0.media_type.to_code(),
                    bus_index: pair.0.bus_index,
                    channel: pair.0.channel,
                };
                let out_info = ForeignRoutingInfo {
                    media_type: pair.1.media_type.to_code(),
                    bus_index: pair.1.bus_index,
                    channel: pair.1.channel,
                };
                (RESULT_OK_CODE, Some((in_info, out_info)))
            },
            None => (RESULT_FALSE_CODE, None),
        }
    }

    /// Marshals bus activation.  Undefined codes and negative indices are
    /// rejected as an invalid argument and change nothing; an index past
    /// the count fails with the false code and changes nothing; otherwise
    /// exactly the chosen bus's active flag changes.
    pub fn activate_bus(&mut self, type_: i32, dir: i32, index: i32, state: u8) -> (r: i32)
        ensures
            final(self).refs == old(self).refs,
            !(MediaType::is_valid_spec(type_) && BusDirection::is_valid_spec(dir) && index >= 0)
                ==> r == INVALID_ARGUMENT_CODE && final(self).inner == old(self).inner,
            MediaType::is_valid_spec(type_) && BusDirection::is_valid_spec(dir) && index >= 0
                ==> {
                let m = MediaType::from_code_spec(type_);
                let d = BusDirection::from_code_spec(dir);
                &&& index >= old(self).inner.bus_count_spec(m, d) ==> r == RESULT_FALSE_CODE
                    && final(self).inner == old(self).inner
                &&& index < old(self).inner.bus_count_spec(m, d) ==> r == RESULT_OK_CODE && final(self).inner.bus_model_spec(m, d, index as int).active == (state != 0) && final(self).inner.initialized() == old(self).inner.initialized()
            },
    {
        if !MediaType::is_valid(type_) || !BusDirection::is_valid(dir) || index < 0 {
            return INVALID_ARGUMENT_CODE;
        }
        let m = MediaType::from_code(type_);
        let d = BusDirection::from_code(dir);
        if self.inner.activate_bus(&m, &d, index as usize, state != 0) {
            RESULT_OK_CODE
        } else {
            RESULT_FALSE_CODE
        }
    }

    /// Marshals the activation switch.
    pub fn set_active(&self, state: u8) -> (r: i32)
        ensures
            r == if self.inner.set_active_result_spec(state != 0) {
                RESULT_OK_CODE
            } else {
                RESULT_FALSE_CODE
            },
    {
        if self.inner.set_active(state != 0) {
            RESULT_OK_CODE
        } else {
            RESULT_FALSE_CODE
        }
    }

    /// Marshals state restoration from the host's stream.  The embedding
    /// rejects a null stream before this call; a stream too short for the
    /// declared state fails with the false code and changes nothing.
    pub fn set_state(&mut self, state: &mut ByteStream) -> (r: i32)
        requires
            old(state).wf(),
        ensures
            final(self).refs == old(self).refs,
            final(state).bytes == old(state).bytes,
            final(state).wf(),
            old(state).pos + 8 * old(self).inner.state_values_spec().len() <= old(state).bytes@.len() ==> r == RESULT_OK_CODE && final(self).inner.state_values_spec()
                == crate::stream::decode_values(
                old(state).bytes@.skip(old(state).pos as int),
                old(self).inner.state_values_spec().len(),
            ),
            old(state).pos + 8 * old(self).inner.state_values_spec().len() > old(state).bytes@.len() ==> r == RESULT_FALSE_CODE && final(self).inner == old(self).inner,
    {
        if self.inner.set_state(state) {
            RESULT_OK_CODE
        } else {
            RESULT_FALSE_CODE
        }
    }

    /// Marshals state persistence into the host's stream: the declared
    /// state, one value per parameter in declaration order, appended to
    /// the stream.
    pub fn get_state(&self, state: &mut ByteStream) -> (r: i32)
        requires
            old(state).wf(),
            old(state).pos == old(state).bytes@.len(),
            old(state).bytes@.len() + 8 * self.inner.state_values_spec().len() <= usize::MAX,
        ensures
            r == RESULT_OK_CODE,
            final(state).bytes@ == old(state).bytes@ + crate::stream::encode_values(
                self.inner.state_values_spec(),
            ),
            final(state).wf(),
    {
        if self.inner.get_state(state) {
            RESULT_OK_CODE
        } else {
            RESULT_FALSE_CODE
        }
    }
}

/// Which processing path one call takes, decided before any buffer is
/// touched.
#[derive(Clone, Copy, Debug, PartialEq, Eq, Structural)]
pub enum ProcessRoute {
    InvalidData,
    Sample32,
    Sample64,
}

/// Decides the processing path: a missing data block is an invalid
/// argument; otherwise the sample width chooses the 32- or 64-bit path.
/// An undefined width code is treated as the invalid argument it is.
pub fn process_route(data_present: bool, symbolic_sample_size: i32) -> (r: ProcessRoute)
    ensures
        !data_present ==> r == ProcessRoute::InvalidData,
        data_present && !SymbolicSampleSize::is_valid_spec(symbolic_sample_size) ==> r
            == ProcessRoute::InvalidData,
        data_present && symbolic_sample_size == crate::audio_processor::SAMPLE32_CODE ==> r
            == ProcessRoute::Sample32,
        data_present && symbolic_sample_size == crate::audio_processor::SAMPLE64_CODE ==> r
            == ProcessRoute::Sample64,
{
    if !data_present {
        return ProcessRoute::InvalidData;
    }
    if !SymbolicSampleSize::is_valid(symbolic_sample_size) {
        return ProcessRoute::InvalidData;
    }
    match SymbolicSampleSize::from_code(symbolic_sample_size) {
        SymbolicSampleSize::Sample32 => ProcessRoute::Sample32,
        SymbolicSampleSize::Sample64 => ProcessRoute::Sample64,
    }
}

impl<C: AudioProcessor> ComponentBridge<C> {
    /// Marshals layout negotiation.  The embedding rejects null layout
    /// pointers and negative counts before this call.
    pub fn set_bus_arrangements(&mut self, inputs: &Vec<u64>, outputs: &Vec<u64>) -> (r: i32)
        ensures
            final(self).refs == old(self).refs,
            r == if old(self).inner.arrangements_accepted_spec(inputs@, outputs@) {
                RESULT_OK_CODE
            } else {
                RESULT_FALSE_CODE
            },
    {
        if self.inner.set_bus_arrangements(inputs, outputs) {
            RESULT_OK_CODE
        } else {
            RESULT_FALSE_CODE
        }
    }

    /// Marshals the arrangement query.  An undefined direction code or a
    /// negative index is rejected as an invalid argument; an index past
    /// the count fails with the false code; the arrangement is produced
    /// only on success.
    pub fn get_bus_arrangement(&self, dir: i32, index: i32) -> (r: (i32, Option<u64>))
        ensures
            !(BusDirection::is_valid_spec(dir) && index >= 0) ==> r == (
                INVALID_ARGUMENT_CODE,
                None::<u64>,
            ),
            BusDirection::is_valid_spec(dir) && index >= 0 ==> {
                let d = BusDirection::from_code_spec(dir);
                &&& index >= self.inner.bus_count_spec(MediaType::Audio, d) ==> r == (
                    RESULT_FALSE_CODE,
                    None::<u64>,
                )
                &&& index < self.inner.bus_count_spec(MediaType::Audio, d) ==> r == (
                    RESULT_OK_CODE,
                    Some(self.inner.audio_arrangement_spec(d, index as int)),
                )
            },
    {
        if !BusDirection::is_valid(dir) || index < 0 {
            return (INVALID_ARGUMENT_CODE, None);
        }
        let d = BusDirection::from_code(dir);
        match self.inner.get_bus_arrangement(&d, index as usize) {
            Some(arr) => (RESULT_OK_CODE, Some(arr)),
            None => (RESULT_FALSE_CODE, None),
        }
    }

    /// Marshals the sample-width query: an undefined width code is
    /// rejected as an invalid argument.
    pub fn can_process_sample_size(&self, symbolic_sample_size: i32) -> (r: i32)
        ensures
            !SymbolicSampleSize::is_valid_spec(symbolic_sample_size) ==> r
                == INVALID_ARGUMENT_CODE,
            SymbolicSampleSize::is_valid_spec(symbolic_sample_size) ==> r
                == if self.inner.sample_size_ok_spec(
                SymbolicSampleSize::from_code_spec(symbolic_sample_size),
            ) {
                RESULT_OK_CODE
            } else {
                RESULT_FALSE_CODE
            },
    {
        if !SymbolicSampleSize::is_valid(symbolic_sample_size) {
            return INVALID_ARGUMENT_CODE;
        }
        let s = SymbolicSampleSize::from_code(symbolic_sample_size);
        if self.inner.can_process_sample_size(&s) {
            RESULT_OK_CODE
        } else {
            RESULT_FALSE_CODE
        }
    }

    /// Marshals the latency query: a latency past the foreign word reads
    /// as zero rather than overflowing it.
    pub fn get_latency_samples(&self) -> (r: u32)
        ensures
            self.inner.latency_spec() > u32::MAX ==> r == 0,
            self.inner.latency_spec() <= u32::MAX ==> r == self.inner.latency_spec(),
    {
        let latency = self.inner.get_latency_samples();
        if latency > u32::MAX as usize {
            0
        } else {
            latency as u32
        }
    }

    /// Marshals the processing setup.  The embedding rejects a null setup
    /// record before this call; undefined mode or width codes are
    /// rejected as an invalid argument.
    pub fn setup_processing(
        &mut self,
        process_mode: i32,
        symbolic_sample_size: i32,
        max_samples_per_block: i32,
        sample_rate_bits: u64,
    ) -> (r: i32)
        ensures
            final(self).refs == old(self).refs,
            !(crate::audio_processor::ProcessMode::is_valid_spec(process_mode)
                && SymbolicSampleSize::is_valid_spec(symbolic_sample_size)) ==> r
                == INVALID_ARGUMENT_CODE && final(self).inner == old(self).inner,
            crate::audio_processor::ProcessMode::is_valid_spec(process_mode)
                && SymbolicSampleSize::is_valid_spec(symbolic_sample_size) ==> r == if old(self).inner.setup_result_spec(
                ProcessSetup {
                    process_mode: crate::audio_processor::ProcessMode::from_code_spec(
                        process_mode,
                    ),
                    symbolic_sample_size: SymbolicSampleSize::from_code_spec(symbolic_sample_size),
                    max_samples_per_block,
                    sample_rate_bits,
                },
            ) {
                RESULT_OK_CODE
            } else {
                RESULT_FALSE_CODE
            },
    {
        if !crate::audio_processor::ProcessMode::is_valid(process_mode)
            || !SymbolicSampleSize::is_valid(symbolic_sample_size) {
            return INVALID_ARGUMENT_CODE;
        }
        let setup = ProcessSetup {
            process_mode: crate::audio_processor::ProcessMode::from_code(process_mode),
            symbolic_sample_size: SymbolicSampleSize::from_code(symbolic_sample_size),
            max_samples_per_block,
            sample_rate_bits,
        };
        if self.inner.setup_processing(&setup) {
            RESULT_OK_CODE
        } else {
            RESULT_FALSE_CODE
        }
    }

    /// Marshals the processing switch.
    pub fn set_processing(&mut self, state: u8) -> (r: i32)
        ensures
            final(self).refs == old(self).refs,
            r == if old(self).inner.processing_result_spec(state != 0) {
                RESULT_OK_CODE
            } else {
                RESULT_FALSE_CODE
            },
    {
        if self.inner.set_processing(state != 0) {
            RESULT_OK_CODE
        } else {
            RESULT_FALSE_CODE
        }
    }

    /// Marshals the tail query: a tail past the foreign word reads as
    /// zero rather than overflowing it.
    pub fn get_tail_samples(&self) -> (r: u32)
        ensures
            self.inner.tail_spec() > u32::MAX ==> r == 0,
            self.inner.tail_spec() <= u32::MAX ==> r == self.inner.tail_spec(),
    {
        let tail = self.inner.get_tail_samples();
        if tail > u32::MAX as usize {
            0
        } else {
            tail as u32
        }
    }
}

/// A bridge object exporting the edit-controller interface of one boxed
/// implementation.
pub struct EditControllerBridge<E> {
    pub inner: E,
    pub refs: RefCount,
}

impl<E: EditController> EditControllerBridge<E> {
    /// A fresh bridge with one reference.
    pub fn new(inner: E) -> (r: Self)
        ensures
            r.inner == inner,
            r.refs.count == 1,
    {
        EditControllerBridge { inner, refs: RefCount::new() }
    }

    /// Marshals the lifecycle entry, as on the component bridge.
    pub fn initialize(&mut self) -> (r: i32)
        ensures
            r == if !old(self).inner.initialized() {
                RESULT_OK_CODE
            } else {
                RESULT_FALSE_CODE
            },
            final(self).inner.initialized(),
            !old(self).inner.initialized() == false ==> final(self).inner == old(self).inner,
            final(self).refs == old(self).refs,
    {
        if self.inner.initialize() {
            RESULT_OK_CODE
        } else {
            RESULT_FALSE_CODE
        }
    }

    /// Marshals the lifecycle exit, as on the component bridge.
    pub fn terminate(&mut self) -> (r: i32)
        ensures
            r == RESULT_OK_CODE,
            !final(self).inner.initialized(),
            final(self).refs == old(self).refs,
    {
        if self.inner.terminate() {
            RESULT_OK_CODE
        } else {
            RESULT_FALSE_CODE
        }
    }

    /// Marshals component-state synchronization.  The embedding rejects a
    /// null stream before this call.
    pub fn set_component_state(&mut self, state: &mut ByteStream) -> (r: i32)
        requires
            old(state).wf(),
        ensures
            final(self).refs == old(self).refs,
            final(state).bytes == old(state).bytes,
            final(state).wf(),
            old(state).pos + 8 * old(self).inner.state_values_spec().len() <= old(state).bytes@.len() ==> r == RESULT_OK_CODE && final(self).inner.state_values_spec()
                == crate::stream::decode_values(
                old(state).bytes@.skip(old(state).pos as int),
                old(self).inner.state_values_spec().len(),
            ),
            old(state).pos + 8 * old(self).inner.state_values_spec().len() > old(state).bytes@.len() ==> r == RESULT_FALSE_CODE && final(self).inner == old(self).inner,
    {
        match self.inner.set_component_state(state) {
            Ok(k) => crate::unknown::result_to_code(Ok(k)),
            Err(e) => crate::unknown::result_to_code(Err(e)),
        }
    }

    /// Marshals the parameter-count query: a count past the foreign word
    /// degrades to the internal-error code rather than overflowing it.
    pub fn get_parameter_count(&self) -> (r: i32)
        ensures
            self.inner.param_count_spec() > i32::MAX ==> r == INTERNAL_ERROR_CODE,
            self.inner.param_count_spec() <= i32::MAX ==> r == self.inner.param_count_spec(),
    {
        match self.inner.get_parameter_count() {
            Ok(count) => {
                if count > i32::MAX as usize {
                    INTERNAL_ERROR_CODE
                } else {
                    count as i32
                }
            },
            Err(_) => INTERNAL_ERROR_CODE,
        }
    }

    /// Marshals the parameter-info query.  A negative or out-of-range
    /// index is rejected as an invalid argument; the record is produced
    /// only on success, its title fields truncated into the fixed fields,
    /// never overflowed.
    pub fn get_parameter_info(&self, param_index: i32) -> (r: (i32, Option<ForeignParameterInfo>))
        ensures
            param_index < 0 ==> r == (INVALID_ARGUMENT_CODE, None::<ForeignParameterInfo>),
            param_index >= 0 && param_index >= self.inner.param_count_spec() ==> r == (
                INVALID_ARGUMENT_CODE,
                None::<ForeignParameterInfo>,
            ),
            0 <= param_index < self.inner.param_count_spec() ==> r.0 == RESULT_OK_CODE && (
            r.1 matches Some(info) && foreign_parameter_info_spec(
                info,
                self.inner.param_info_spec(param_index as int),
            )),
    {
        if param_index < 0 {
            return (INVALID_ARGUMENT_CODE, None);
        }
        match self.inner.get_parameter_info(param_index as usize) {
            Ok(info) => (RESULT_OK_CODE, Some(foreign_parameter_info(info))),
            Err(e) => (e.to_code(), None),
        }
    }

    /// Marshals the value query: the raw bits of the parameter's current
    /// value, or the bits of zero for an unknown id, as the foreign
    /// protocol's value-returning call has no error channel.
    pub fn get_param_normalized(&self, id: u32) -> (r: u64)
        ensures
            self.inner.param_value_spec(id) matches Some(v) ==> r == v.bits,
            self.inner.param_value_spec(id) is None ==> r == 0,
    {
        match self.inner.get_param_normalized(id) {
            Ok(v) => v.bits,
            Err(_) => 0,
        }
    }

    /// Marshals the value update: ok on a known id, the false code on an
    /// unknown one, which changes nothing.
    pub fn set_param_normalized(&mut self, id: u32, value_bits: u64) -> (r: i32)
        ensures
            final(self).refs == old(self).refs,
            old(self).inner.param_value_spec(id) is Some ==> r == RESULT_OK_CODE && final(self).inner.param_value_spec(id) == Some(
                crate::parameters::NormalizedValue { bits: value_bits },
            ),
            old(self).inner.param_value_spec(id) is None ==> r == RESULT_FALSE_CODE && final(self).inner == old(self).inner,
    {
        match self.inner.set_param_normalized(
            id,
            crate::parameters::NormalizedValue { bits: value_bits },
        ) {
            Ok(k) => crate::unknown::result_to_code(Ok(k)),
            Err(e) => crate::unknown::result_to_code(Err(e)),
        }
    }
}

/// The bridge object exporting the factory interfaces of the module's
/// one class table.
pub struct FactoryBridge {
    pub inner: BaseFactory,
    pub refs: RefCount,
}

impl FactoryBridge {
    /// A fresh bridge with one reference.
    pub fn new(inner: BaseFactory) -> (r: Self)
        ensures
            r.inner == inner,
            r.refs.count == 1,
    {
        FactoryBridge { inner, refs: RefCount::new() }
    }

    /// Marshals the factory-info query: the metadata laid out in the
    /// fixed narrow fields, truncated, never overflowed.
    pub fn get_factory_info(&self) -> (r: (i32, ForeignFactoryInfo))
        ensures
            r.0 == RESULT_OK_CODE,
            r.1.vendor@ == fixed_field_spec(vstd::utf8::encode_utf8(self.inner.info.vendor@), 64, 0u8),
            r.1.url@ == fixed_field_spec(vstd::utf8::encode_utf8(self.inner.info.url@), 256, 0u8),
            r.1.email@ == fixed_field_spec(vstd::utf8::encode_utf8(self.inner.info.email@), 128, 0u8),
            r.1.flags == self.inner.info.flags,
    {
        let info = self.inner.get_factory_info();
        let out = ForeignFactoryInfo {
            vendor: narrow_field(info.vendor.as_str(), 64),
            url: narrow_field(info.url.as_str(), 256),
            email: narrow_field(info.email.as_str(), 128),
            flags: info.flags,
        };
        (RESULT_OK_CODE, out)
    }

    /// Marshals the class count: a count past the foreign word degrades
    /// to the internal-error code rather than overflowing it.
    pub fn count_classes(&self) -> (r: i32)
        ensures
            self.inner.classes@.len() > i32::MAX ==> r == INTERNAL_ERROR_CODE,
            self.inner.classes@.len() <= i32::MAX ==> r == self.inner.classes@.len(),
    {
        match self.inner.count_classes() {
            Ok(count) => {
                if count > i32::MAX as usize {
                    INTERNAL_ERROR_CODE
                } else {
                    count as i32
                }
            },
            Err(_) => 0,
        }
    }

    /// Marshals the basic class-info query.  A negative or out-of-range
    /// index is rejected as an invalid argument; the record is produced
    /// only on success.
    pub fn get_class_info(&self, index: i32) -> (r: (i32, Option<ForeignClassInfo>))
        ensures
            index < 0 ==> r == (INVALID_ARGUMENT_CODE, None::<ForeignClassInfo>),
            index >= 0 && index >= self.inner.classes@.len() ==> r == (
                INVALID_ARGUMENT_CODE,
                None::<ForeignClassInfo>,
            ),
            0 <= index < self.inner.classes@.len() ==> r.0 == RESULT_OK_CODE && (
            r.1 matches Some(info) && foreign_class_info_spec(
                info,
                self.inner.classes@[index as int],
            )),
    {
        if index < 0 {
            return (INVALID_ARGUMENT_CODE, None);
        }
        match self.inner.get_class_info(index as usize) {
            Ok(c) => (RESULT_OK_CODE, Some(foreign_class_info(c))),
            Err(e) => (e.to_code(), None),
        }
    }

    /// Marshals the extended class-info query, the same way.
    pub fn get_class_info_unicode(&self, index: i32) -> (r: (i32, Option<ForeignClassInfoW>))
        ensures
            index < 0 ==> r == (INVALID_ARGUMENT_CODE, None::<ForeignClassInfoW>),
            index >= 0 && index >= self.inner.classes@.len() ==> r == (
                INVALID_ARGUMENT_CODE,
                None::<ForeignClassInfoW>,
            ),
            0 <= index < self.inner.classes@.len() ==> r.0 == RESULT_OK_CODE && (
            r.1 matches Some(info) && foreign_class_info_w_spec(
                info,
                self.inner.classes@[index as int],
            )),
    {
        if index < 0 {
            return (INVALID_ARGUMENT_CODE, None);
        }
        match self.inner.get_class_info(index as usize) {
            Ok(c) => (RESULT_OK_CODE, Some(foreign_class_info_w(c))),
            Err(e) => (e.to_code(), None),
        }
    }

    /// Marshals instantiation: resolves the requested class identifier,
    /// handed in its foreign byte layout, to its table index, from which
    /// the embedding constructs the matching implementation and wraps it
    /// in a fresh bridge.  Anything but exactly sixteen identifier bytes
    /// is an invalid argument; an identifier naming no class fails with
    /// the false code.
    pub fn create_instance(&self, cid_bytes: &[u8]) -> (r: (i32, Option<usize>))
        ensures
            cid_bytes@.len() != 16 ==> r == (INVALID_ARGUMENT_CODE, None::<usize>),
            cid_bytes@.len() == 16 ==> {
                let cid = UID::from_foreign_bytes_spec(cid_bytes@);
                &&& find_class(self.inner.classes@, cid) >= 0 ==> r == (
                    RESULT_OK_CODE,
                    Some(find_class(self.inner.classes@, cid) as usize),
                )
                &&& find_class(self.inner.classes@, cid) == -1 ==> r == (
                    RESULT_FALSE_CODE,
                    None::<usize>,
                )
            },
    {
        let cid = match UID::from_foreign_bytes(cid_bytes) {
            Some(cid) => cid,
            None => {
                return (INVALID_ARGUMENT_CODE, None);
            },
        };
        proof {
            crate::factory::lemma_find_class_in_range(self.inner.classes@, cid);
        }
        match self.inner.find_class_index(&cid) {
            Ok(i) => (RESULT_OK_CODE, Some(i)),
            Err(_) => (RESULT_FALSE_CODE, None),
        }
    }

    /// Marshals host-context registration: ok the first time, the false
    /// code after.  The embedding rejects a null context before this
    /// call.
    pub fn set_host_context(&mut self) -> (r: i32)
        ensures
            final(self).refs == old(self).refs,
            !old(self).inner.host_context_set ==> r == RESULT_OK_CODE && final(self).inner.host_context_set,
            old(self).inner.host_context_set ==> r == RESULT_FALSE_CODE && final(self).inner
                == old(self).inner,
    {
        match self.inner.set_host_context() {
            Ok(k) => crate::unknown::result_to_code(Ok(k)),
            Err(e) => crate::unknown::result_to_code(Err(e)),
        }
    }
}


/// The foreign unit record: the name as a fixed field of 128 wide
/// characters.
pub struct ForeignUnitInfo {
    pub id: i32,
    pub parent_unit_id: i32,
    pub name: Vec<u16>,
    pub program_list_id: i32,
}

/// The foreign program-list record, laid out the same way.
pub struct ForeignProgramListInfo {
    pub id: i32,
    pub name: Vec<u16>,
    pub program_count: i32,
}

impl<E: UnitInfo> EditControllerBridge<E> {
    /// Marshals the unit count: a failing implementation reads as zero,
    /// as the foreign count query has no error channel.
    pub fn get_unit_count(&self) -> (r: i32)
        ensures
            self.inner.unit_count_spec() <= i32::MAX ==> r == self.inner.unit_count_spec(),
            self.inner.unit_count_spec() > i32::MAX ==> r == 0,
    {
        match self.inner.get_unit_count() {
            Ok(c) => c,
            Err(_) => 0,
        }
    }

    /// Marshals the unit query.  A negative or out-of-range index is
    /// rejected as an invalid argument; the record is produced only on
    /// success, its name truncated into the fixed field.
    pub fn get_unit_info(&self, unit_index: i32) -> (r: (i32, Option<ForeignUnitInfo>))
        ensures
            !(0 <= unit_index < self.inner.unit_count_spec()) ==> r == (
                INVALID_ARGUMENT_CODE,
                None::<ForeignUnitInfo>,
            ),
            0 <= unit_index < self.inner.unit_count_spec() ==> r.0 == RESULT_OK_CODE && (
            r.1 matches Some(info) && {
                let u = self.inner.unit_spec(unit_index as int);
                &&& info.id == u.id
                &&& info.parent_unit_id == u.parent_unit_id
                &&& info.name@ == fixed_field_spec(utf16_units_of(u.name@), 128, 0u16)
                &&& info.program_list_id == u.program_list_id
            }),
    {
        match self.inner.get_unit_info(unit_index) {
            Ok(u) => {
                let out = ForeignUnitInfo {
                    id: u.id,
                    parent_unit_id: u.parent_unit_id,
                    name: wide_field(u.name.as_str(), 128),
                    program_list_id: u.program_list_id,
                };
                (RESULT_OK_CODE, Some(out))
            },
            Err(e) => (e.to_code(), None),
        }
    }

    /// Marshals the program-list count, as the unit count.
    pub fn get_program_list_count(&self) -> (r: i32)
        ensures
            self.inner.program_list_count_spec() <= i32::MAX ==> r
                == self.inner.program_list_count_spec(),
            self.inner.program_list_count_spec() > i32::MAX ==> r == 0,
    {
        match self.inner.get_program_list_count() {
            Ok(c) => c,
            Err(_) => 0,
        }
    }

    /// Marshals the program-list query, as the unit query.
    pub fn get_program_list_info(&self, list_index: i32) -> (r: (
        i32,
        Option<ForeignProgramListInfo>,
    ))
        ensures
            !(0 <= list_index < self.inner.program_list_count_spec()) ==> r == (
                INVALID_ARGUMENT_CODE,
                None::<ForeignProgramListInfo>,
            ),
            0 <= list_index < self.inner.program_list_count_spec() ==> r.0 == RESULT_OK_CODE && (
            r.1 matches Some(info) && {
                let l = self.inner.program_list_spec(list_index as int);
                &&& info.id == l.id
                &&& info.name@ == fixed_field_spec(utf16_units_of(l.name@), 128, 0u16)
                &&& info.program_count == l.program_count
            }),
    {
        match self.inner.get_program_list_info(list_index) {
            Ok(l) => {
                let out = ForeignProgramListInfo {
                    id: l.id,
                    name: wide_field(l.name.as_str(), 128),
                    program_count: l.program_count,
                };
                (RESULT_OK_CODE, Some(out))
            },
            Err(e) => (e.to_code(), None),
        }
    }

    /// Marshals the selected-unit query.
    pub fn get_selected_unit(&self) -> (r: i32)
        ensures
            r == self.inner.selected_unit_spec(),
    {
        match self.inner.get_selected_unit() {
            Ok(id) => id,
            Err(_) => 0,
        }
    }

    /// Marshals unit selection: ok on an accepted id, otherwise the
    /// invalid-argument code, which changes nothing.
    pub fn select_unit(&mut self, id: i32) -> (r: i32)
        ensures
            final(self).refs == old(self).refs,
            old(self).inner.accepts_unit_spec(id) ==> r == RESULT_OK_CODE && final(self).inner.selected_unit_spec() == id,
            !old(self).inner.accepts_unit_spec(id) ==> r == INVALID_ARGUMENT_CODE && final(self).inner == old(self).inner,
    {
        match self.inner.select_unit(id) {
            Ok(k) => crate::unknown::result_to_code(Ok(k)),
            Err(e) => crate::unknown::result_to_code(Err(e)),
        }
    }
}

impl<M: MidiMapping> EditControllerBridge<M> {
    /// Marshals the midi-assignment query: the assigned parameter id on
    /// success, produced only then; an absent assignment fails with the
    /// false code.
    pub fn get_midi_controller_assignment(
        &self,
        bus_index: i32,
        channel: i16,
        midi_controller_number: i16,
    ) -> (r: (i32, Option<u32>))
        ensures
            self.inner.midi_assignment_spec(bus_index, channel, midi_controller_number)
                matches Some(id) ==> r == (RESULT_OK_CODE, Some(id)),
            self.inner.midi_assignment_spec(bus_index, channel, midi_controller_number) is None
                ==> r == (RESULT_FALSE_CODE, None::<u32>),
    {
        match self.inner.get_midi_controller_assignment(
            bus_index,
            channel,
            midi_controller_number,
        ) {
            Ok(id) => (RESULT_OK_CODE, Some(id)),
            Err(_) => (RESULT_FALSE_CODE, None),
        }
    }
}

} // verus!
