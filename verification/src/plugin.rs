//! Base implementations of the capability traits: a component that owns
//! its declared bus tables and parameter values, and an edit controller
//! that owns its declared parameters.  `initialize` registers what was
//! declared; `terminate` releases it; both follow the lifecycle contract
//! to the letter.

use vstd::prelude::*;

use crate::audio_processor::{AudioProcessor, ProcessSetup, SymbolicSampleSize};
use crate::bus::{AudioBus, BaseAudioBus, BaseBus, BaseEventBus, Bus, BusEntry, BusModel, BusVec};
use crate::common::UID;
use crate::component::{BusDirection, BusInfo, BusType, Component, IoMode, MediaType, RoutingInfo};
use crate::edit_controller::EditController;
use crate::io::IO;
use crate::parameters::{
    index_of_id, lemma_index_of_id_in_range, lemma_index_of_id_update, BaseParameter,
    NormalizedValue, ParameterContainer, ParameterInfo,
};
use crate::plugin_base::PluginBase;
use crate::speaker::{get_channel_count, pop_count};
use crate::stream::{param_values, read_parameter_state, write_parameter_state, ByteStream};
use crate::unit::{ProgramList, Unit};
use crate::unit_info::{has_unit, UnitInfo};
use crate::unknown::{ResultErr, ResultOk};

verus! {

/// An exact copy of an audio bus.
fn clone_audio_bus(b: &BaseAudioBus) -> (r: BaseAudioBus)
    ensures
        r == *b,
{
    BaseAudioBus {
        inner: Box::new(
            BaseBus {
                name: b.inner.name.clone(),
                bus_type: b.inner.bus_type,
                flags: b.inner.flags,
                active: b.inner.active,
            },
        ),
        speaker_arr: b.speaker_arr,
    }
}

/// An exact copy of an event bus.
fn clone_event_bus(b: &BaseEventBus) -> (r: BaseEventBus)
    ensures
        r == *b,
{
    BaseEventBus {
        inner: Box::new(
            BaseBus {
                name: b.inner.name.clone(),
                bus_type: b.inner.bus_type,
                flags: b.inner.flags,
                active: b.inner.active,
            },
        ),
        channel_count: b.channel_count,
    }
}

fn clone_opt_string(s: &Option<String>) -> (r: Option<String>)
    ensures
        r == *s,
{
    match s {
        Some(t) => Some(t.clone()),
        None => None,
    }
}

/// An exact copy of a parameter, value included.
fn clone_parameter(p: &BaseParameter) -> (r: BaseParameter)
    ensures
        r == *p,
{
    BaseParameter {
        info: ParameterInfo {
            id: p.info.id,
            title: p.info.title.clone(),
            short_title: clone_opt_string(&p.info.short_title),
            units: clone_opt_string(&p.info.units),
            step_count: p.info.step_count,
            default_normalized_value: p.info.default_normalized_value,
            unit_id: p.info.unit_id,
            flags: p.info.flags,
        },
        value_normalized: p.value_normalized,
        precision: p.precision,
    }
}

/// The declared audio buses as bus-table entries, in order.
pub open spec fn audio_entries_of(s: Seq<BaseAudioBus>) -> Seq<BusEntry> {
    s.map_values(|b: BaseAudioBus| BusEntry::Audio(b))
}

/// The declared event buses as bus-table entries, in order.
pub open spec fn event_entries_of(s: Seq<BaseEventBus>) -> Seq<BusEntry> {
    s.map_values(|b: BaseEventBus| BusEntry::Event(b))
}

fn append_audio_entries(list: &mut BusVec, decl: &Vec<BaseAudioBus>)
    ensures
        final(list).inner@ == old(list).inner@ + audio_entries_of(decl@),
        final(list).type_ == old(list).type_,
        final(list).direction == old(list).direction,
{
    let mut i: usize = 0;
    while i < decl.len()
        invariant
            i <= decl@.len(),
            list.inner@ == old(list).inner@ + audio_entries_of(decl@.take(i as int)),
            list.type_ == old(list).type_,
            list.direction == old(list).direction,
        decreases decl@.len() - i,
    {
        let b = clone_audio_bus(&decl[i]);
        list.inner.push(BusEntry::Audio(b));
        i = i + 1;
        proof {
            assert(list.inner@ =~= old(list).inner@ + audio_entries_of(decl@.take(i as int)));
        }
    }
    proof {
        assert(decl@.take(decl@.len() as int) =~= decl@);
    }
}

fn append_event_entries(list: &mut BusVec, decl: &Vec<BaseEventBus>)
    ensures
        final(list).inner@ == old(list).inner@ + event_entries_of(decl@),
        final(list).type_ == old(list).type_,
        final(list).direction == old(list).direction,
{
    let mut i: usize = 0;
    while i < decl.len()
        invariant
            i <= decl@.len(),
            list.inner@ == old(list).inner@ + event_entries_of(decl@.take(i as int)),
            list.type_ == old(list).type_,
            list.direction == old(list).direction,
        decreases decl@.len() - i,
    {
        let b = clone_event_bus(&decl[i]);
        list.inner.push(BusEntry::Event(b));
        i = i + 1;
        proof {
            assert(list.inner@ =~= old(list).inner@ + event_entries_of(decl@.take(i as int)));
        }
    }
    proof {
        assert(decl@.take(decl@.len() as int) =~= decl@);
    }
}

fn append_parameters(params: &mut ParameterContainer, decl: &Vec<BaseParameter>)
    ensures
        final(params).params@ == old(params).params@ + decl@,
{
    let mut i: usize = 0;
    while i < decl.len()
        invariant
            i <= decl@.len(),
            params.params@ == old(params).params@ + decl@.take(i as int),
        decreases decl@.len() - i,
    {
        let p = clone_parameter(&decl[i]);
        params.params.push(p);
        i = i + 1;
        proof {
            assert(params.params@ =~= old(params).params@ + decl@.take(i as int));
        }
    }
    proof {
        assert(decl@.take(decl@.len() as int) =~= decl@);
    }
}

/// A component that registers its declared buses and parameters on
/// `initialize` and releases them on `terminate`.  Its persisted state is
/// its parameters' values in declaration order.
pub struct BaseComponent {
    pub controller_cid: Option<UID>,
    pub declared_audio_inputs: Vec<BaseAudioBus>,
    pub declared_audio_outputs: Vec<BaseAudioBus>,
    pub declared_event_inputs: Vec<BaseEventBus>,
    pub declared_event_outputs: Vec<BaseEventBus>,
    pub declared_params: Vec<BaseParameter>,
    pub initialized: bool,
    pub io: IO,
    pub params: ParameterContainer,
}

impl BaseComponent {
    /// A fresh, uninitialized component with its declaration: nothing is
    /// registered until `initialize`.
    pub fn new(
        controller_cid: Option<UID>,
        declared_audio_inputs: Vec<BaseAudioBus>,
        declared_audio_outputs: Vec<BaseAudioBus>,
        declared_event_inputs: Vec<BaseEventBus>,
        declared_event_outputs: Vec<BaseEventBus>,
        declared_params: Vec<BaseParameter>,
    ) -> (r: Self)
        ensures
            !r.initialized,
            r.controller_cid == controller_cid,
            r.declared_audio_inputs == declared_audio_inputs,
            r.declared_audio_outputs == declared_audio_outputs,
            r.declared_event_inputs == declared_event_inputs,
            r.declared_event_outputs == declared_event_outputs,
            r.declared_params == declared_params,
            r.io.audio_inputs.inner@.len() == 0,
            r.io.audio_outputs.inner@.len() == 0,
            r.io.event_inputs.inner@.len() == 0,
            r.io.event_outputs.inner@.len() == 0,
            r.params.params@.len() == 0,
    {
        BaseComponent {
            controller_cid,
            declared_audio_inputs,
            declared_audio_outputs,
            declared_event_inputs,
            declared_event_outputs,
            declared_params,
            initialized: false,
            io: IO::new(),
            params: ParameterContainer::new(),
        }
    }

    /// The bus table one media type and direction select.
    pub open spec fn table_spec(&self, media_type: MediaType, dir: BusDirection) -> Seq<BusEntry> {
        match (media_type, dir) {
            (MediaType::Audio, BusDirection::Input) => self.io.audio_inputs.inner@,
            (MediaType::Audio, BusDirection::Output) => self.io.audio_outputs.inner@,
            (MediaType::Event, BusDirection::Input) => self.io.event_inputs.inner@,
            (MediaType::Event, BusDirection::Output) => self.io.event_outputs.inner@,
            (MediaType::NumMediaTypes, _) => Seq::empty(),
        }
    }
}

impl PluginBase for BaseComponent {
    open spec fn initialized(&self) -> bool {
        self.initialized
    }

    /// Registers the declared buses and parameters, in declaration order.
    fn initialize(&mut self) -> (r: bool)
        ensures
            r ==> {
                &&& final(self).io.audio_inputs.inner@ == old(self).io.audio_inputs.inner@
                    + audio_entries_of(old(self).declared_audio_inputs@)
                &&& final(self).io.audio_outputs.inner@ == old(self).io.audio_outputs.inner@
                    + audio_entries_of(old(self).declared_audio_outputs@)
                &&& final(self).io.event_inputs.inner@ == old(self).io.event_inputs.inner@
                    + event_entries_of(old(self).declared_event_inputs@)
                &&& final(self).io.event_outputs.inner@ == old(self).io.event_outputs.inner@
                    + event_entries_of(old(self).declared_event_outputs@)
                &&& final(self).params.params@ == old(self).params.params@ + old(
                    self,
                ).declared_params@
            },
            final(self).controller_cid == old(self).controller_cid,
            final(self).declared_audio_inputs == old(self).declared_audio_inputs,
            final(self).declared_audio_outputs == old(self).declared_audio_outputs,
            final(self).declared_event_inputs == old(self).declared_event_inputs,
            final(self).declared_event_outputs == old(self).declared_event_outputs,
            final(self).declared_params == old(self).declared_params,
    {
        if self.initialized {
            return false;
        }
        append_audio_entries(&mut self.io.audio_inputs, &self.declared_audio_inputs);
        append_audio_entries(&mut self.io.audio_outputs, &self.declared_audio_outputs);
        append_event_entries(&mut self.io.event_inputs, &self.declared_event_inputs);
        append_event_entries(&mut self.io.event_outputs, &self.declared_event_outputs);
        append_parameters(&mut self.params, &self.declared_params);
        self.initialized = true;
        true
    }

    /// Releases every registered bus and parameter.
    fn terminate(&mut self) -> (r: bool)
        ensures
            final(self).io.audio_inputs.inner@.len() == 0,
            final(self).io.audio_outputs.inner@.len() == 0,
            final(self).io.event_inputs.inner@.len() == 0,
            final(self).io.event_outputs.inner@.len() == 0,
            final(self).params.params@.len() == 0,
            final(self).controller_cid == old(self).controller_cid,
            final(self).declared_audio_inputs == old(self).declared_audio_inputs,
            final(self).declared_audio_outputs == old(self).declared_audio_outputs,
            final(self).declared_event_inputs == old(self).declared_event_inputs,
            final(self).declared_event_outputs == old(self).declared_event_outputs,
            final(self).declared_params == old(self).declared_params,
    {
        self.io.clear_audio_inputs();
        self.io.clear_audio_outputs();
        self.io.clear_event_inputs();
        self.io.clear_event_outputs();
        self.params.remove_all();
        self.initialized = false;
        true
    }
}

impl Component for BaseComponent {
    open spec fn controller_cid_spec(&self) -> Option<UID> {
        self.controller_cid
    }

    open spec fn bus_count_spec(&self, media_type: MediaType, dir: BusDirection) -> nat {
        self.table_spec(media_type, dir).len()
    }

    open spec fn bus_model_spec(&self, media_type: MediaType, dir: BusDirection, index: int) -> BusModel {
        self.table_spec(media_type, dir)[index].model()
    }

    open spec fn routing_spec(&self) -> Option<(RoutingInfo, RoutingInfo)> {
        None
    }

    open spec fn io_mode_result_spec(&self, mode: IoMode) -> bool {
        false
    }

    open spec fn set_active_result_spec(&self, state: bool) -> bool {
        true
    }

    open spec fn state_values_spec(&self) -> Seq<u64> {
        param_values(self.params.params@)
    }

    fn get_controller_class_id(&self) -> (r: Option<&UID>) {
        match &self.controller_cid {
            Some(u) => Some(u),
            None => None,
        }
    }

    fn set_io_mode(&self, mode: &IoMode) -> (r: bool) {
        false
    }

    fn get_bus_count(&self, media_type: &MediaType, dir: &BusDirection) -> (r: usize) {
        match (media_type, dir) {
            (MediaType::Audio, BusDirection::Input) => self.io.audio_inputs.inner.len(),
            (MediaType::Audio, BusDirection::Output) => self.io.audio_outputs.inner.len(),
            (MediaType::Event, BusDirection::Input) => self.io.event_inputs.inner.len(),
            (MediaType::Event, BusDirection::Output) => self.io.event_outputs.inner.len(),
            (MediaType::NumMediaTypes, _) => 0,
        }
    }

    fn get_bus_info(&self, media_type: &MediaType, dir: &BusDirection, index: usize) -> (r: Option<
        BusInfo,
    >) {
        let list: &BusVec = match (media_type, dir) {
            (MediaType::Audio, BusDirection::Input) => &self.io.audio_inputs,
            (MediaType::Audio, BusDirection::Output) => &self.io.audio_outputs,
            (MediaType::Event, BusDirection::Input) => &self.io.event_inputs,
            (MediaType::Event, BusDirection::Output) => &self.io.event_outputs,
            (MediaType::NumMediaTypes, _) => {
                return None;
            },
        };
        if index >= list.inner.len() {
            return None;
        }
        let mut info = BusInfo {
            media_type: *media_type,
            direction: *dir,
            channel_count: 0,
            name: String::new(),
            bus_type: BusType::Main,
            flags: 0,
        };
        list.inner[index].get_info(&mut info);
        Some(info)
    }

    fn get_routing_info(&self) -> (r: Option<(RoutingInfo, RoutingInfo)>) {
        None
    }

    fn activate_bus(
        &mut self,
        media_type: &MediaType,
        dir: &BusDirection,
        index: usize,
        state: bool,
    ) -> (r: bool) {
        match (media_type, dir) {
            (MediaType::Audio, BusDirection::Input) => set_entry_active(
                &mut self.io.audio_inputs,
                index,
                state,
            ),
            (MediaType::Audio, BusDirection::Output) => set_entry_active(
                &mut self.io.audio_outputs,
                index,
                state,
            ),
            (MediaType::Event, BusDirection::Input) => set_entry_active(
                &mut self.io.event_inputs,
                index,
                state,
            ),
            (MediaType::Event, BusDirection::Output) => set_entry_active(
                &mut self.io.event_outputs,
                index,
                state,
            ),
            (MediaType::NumMediaTypes, _) => false,
        }
    }

    fn set_active(&self, state: bool) -> (r: bool) {
        true
    }

    fn set_state(&mut self, state: &mut ByteStream) -> (r: bool) {
        match read_parameter_state(&mut self.params, state) {
            Ok(_) => true,
            Err(_) => false,
        }
    }

    fn get_state(&self, state: &mut ByteStream) -> (r: bool) {
        match write_parameter_state(&self.params, state) {
            Ok(_) => true,
            Err(_) => false,
        }
    }
}

fn set_entry_active(list: &mut BusVec, index: usize, state: bool) -> (r: bool)
    ensures
        r == (index < old(list).inner@.len()),
        !r ==> *final(list) == *old(list),
        final(list).type_ == old(list).type_,
        final(list).direction == old(list).direction,
        final(list).inner@.len() == old(list).inner@.len(),
        forall|i: int|
            0 <= i < old(list).inner@.len() && i != index as int ==> #[trigger] final(list).inner@[i]
                == old(list).inner@[i],
        r ==> {
            let pre = old(list).inner@[index as int].model();
            let post = final(list).inner@[index as int].model();
            &&& post.active == state
            &&& post.name == pre.name
            &&& post.bus_type == pre.bus_type
            &&& post.flags == pre.flags
            &&& post.channel_count == pre.channel_count
        },
{
    if index >= list.inner.len() {
        return false;
    }
    let bus = &mut list.inner[index];
    bus.set_active(state);
    true
}

impl AudioProcessor for BaseComponent {
    open spec fn arrangements_accepted_spec(&self, inputs: Seq<u64>, outputs: Seq<u64>) -> bool {
        &&& inputs.len() == self.bus_count_spec(MediaType::Audio, BusDirection::Input)
        &&& outputs.len() == self.bus_count_spec(MediaType::Audio, BusDirection::Output)
        &&& forall|i: int|
            0 <= i < inputs.len() ==> pop_count(#[trigger] inputs[i]) == self.bus_model_spec(
                MediaType::Audio,
                BusDirection::Input,
                i,
            ).channel_count
        &&& forall|i: int|
            0 <= i < outputs.len() ==> pop_count(#[trigger] outputs[i]) == self.bus_model_spec(
                MediaType::Audio,
                BusDirection::Output,
                i,
            ).channel_count
    }

    open spec fn audio_arrangement_spec(&self, dir: BusDirection, index: int) -> u64 {
        match self.table_spec(MediaType::Audio, dir)[index] {
            BusEntry::Audio(b) => b.speaker_arr,
            BusEntry::Event(_) => 0,
        }
    }

    open spec fn sample_size_ok_spec(&self, size: SymbolicSampleSize) -> bool {
        size == SymbolicSampleSize::Sample32
    }

    open spec fn latency_spec(&self) -> nat {
        0
    }

    open spec fn tail_spec(&self) -> nat {
        0
    }

    open spec fn setup_result_spec(&self, setup: ProcessSetup) -> bool {
        true
    }

    open spec fn processing_result_spec(&self, state: bool) -> bool {
        true
    }

    /// Accepts a pair of proposed layouts exactly when they match the
    /// registered buses in count and per-bus channel count; the
    /// registered buses stay as they are either way.
    fn set_bus_arrangements(&mut self, inputs: &Vec<u64>, outputs: &Vec<u64>) -> (r: bool)
        ensures
            *final(self) == *old(self),
    {
        if inputs.len() != self.io.audio_inputs.inner.len() || outputs.len()
            != self.io.audio_outputs.inner.len() {
            return false;
        }
        let mut i: usize = 0;
        while i < inputs.len()
            invariant
                inputs@.len() == self.io.audio_inputs.inner@.len(),
                i <= inputs@.len(),
                forall|j: int|
                    0 <= j < i as int ==> pop_count(#[trigger] inputs@[j]) == self.bus_model_spec(
                        MediaType::Audio,
                        BusDirection::Input,
                        j,
                    ).channel_count,
            decreases inputs@.len() - i,
        {
            let mut info = BusInfo {
                media_type: MediaType::Audio,
                direction: BusDirection::Input,
                channel_count: 0,
                name: String::new(),
                bus_type: BusType::Main,
                flags: 0,
            };
            self.io.audio_inputs.inner[i].get_info(&mut info);
            if get_channel_count(inputs[i]) != info.channel_count {
                return false;
            }
            i = i + 1;
        }
        let mut o: usize = 0;
        while o < outputs.len()
            invariant
                outputs@.len() == self.io.audio_outputs.inner@.len(),
                o <= outputs@.len(),
                forall|j: int|
                    0 <= j < o as int ==> pop_count(#[trigger] outputs@[j]) == self.bus_model_spec(
                        MediaType::Audio,
                        BusDirection::Output,
                        j,
                    ).channel_count,
            decreases outputs@.len() - o,
        {
            let mut info = BusInfo {
                media_type: MediaType::Audio,
                direction: BusDirection::Output,
                channel_count: 0,
                name: String::new(),
                bus_type: BusType::Main,
                flags: 0,
            };
            self.io.audio_outputs.inner[o].get_info(&mut info);
            if get_channel_count(outputs[o]) != info.channel_count {
                return false;
            }
            o = o + 1;
        }
        true
    }

    fn get_bus_arrangement(&self, dir: &BusDirection, index: usize) -> (r: Option<u64>) {
        let list: &BusVec = match dir {
            BusDirection::Input => &self.io.audio_inputs,
            BusDirection::Output => &self.io.audio_outputs,
        };
        if index >= list.inner.len() {
            return None;
        }
        match list.inner[index].as_audio_bus() {
            Some(b) => Some(b.get_speaker_arrangement()),
            None => Some(0),
        }
    }

    fn can_process_sample_size(&self, symbolic_sample_size: &SymbolicSampleSize) -> (r: bool) {
        match symbolic_sample_size {
            SymbolicSampleSize::Sample32 => true,
            SymbolicSampleSize::Sample64 => false,
        }
    }

    fn get_latency_samples(&self) -> (r: usize) {
        0
    }

    fn setup_processing(&mut self, setup: &ProcessSetup) -> (r: bool) {
        true
    }

    fn set_processing(&mut self, state: bool) -> (r: bool) {
        true
    }

    fn get_tail_samples(&self) -> (r: usize) {
        0
    }
}


/// An edit controller that registers its declared parameters on
/// `initialize` and releases them on `terminate`.  Its persisted state is
/// its parameters' values in declaration order.
pub struct BaseEditController {
    pub declared_params: Vec<BaseParameter>,
    pub units: Vec<Unit>,
    pub program_lists: Vec<ProgramList>,
    pub selected_unit: i32,
    pub initialized: bool,
    pub params: ParameterContainer,
}

impl BaseEditController {
    /// A fresh, uninitialized controller with its declaration: nothing is
    /// registered until `initialize`.
    pub fn new(declared_params: Vec<BaseParameter>, units: Vec<Unit>) -> (r: Self)
        ensures
            !r.initialized,
            r.declared_params == declared_params,
            r.units == units,
            r.program_lists@.len() == 0,
            r.selected_unit == crate::unit::ROOT_UNIT_ID,
            r.params.params@.len() == 0,
    {
        BaseEditController {
            declared_params,
            units,
            program_lists: Vec::new(),
            selected_unit: crate::unit::ROOT_UNIT_ID,
            initialized: false,
            params: ParameterContainer::new(),
        }
    }

    /// Declares one more program list.
    pub fn add_program_list(&mut self, list: ProgramList)
        ensures
            final(self).program_lists@ == old(self).program_lists@.push(list),
            final(self).units == old(self).units,
            final(self).declared_params == old(self).declared_params,
            final(self).selected_unit == old(self).selected_unit,
            final(self).initialized == old(self).initialized,
            final(self).params == old(self).params,
    {
        self.program_lists.push(list);
    }
}

impl PluginBase for BaseEditController {
    open spec fn initialized(&self) -> bool {
        self.initialized
    }

    /// Registers the declared parameters, in declaration order.
    fn initialize(&mut self) -> (r: bool)
        ensures
            r ==> final(self).params.params@ == old(self).params.params@ + old(
                self,
            ).declared_params@,
            final(self).declared_params == old(self).declared_params,
            final(self).units == old(self).units,
    {
        if self.initialized {
            return false;
        }
        append_parameters(&mut self.params, &self.declared_params);
        self.initialized = true;
        true
    }

    /// Releases every registered parameter.
    fn terminate(&mut self) -> (r: bool)
        ensures
            final(self).params.params@.len() == 0,
            final(self).declared_params == old(self).declared_params,
            final(self).units == old(self).units,
    {
        self.params.remove_all();
        self.initialized = false;
        true
    }
}

impl EditController for BaseEditController {
    open spec fn param_count_spec(&self) -> nat {
        self.params.params@.len()
    }

    open spec fn param_info_spec(&self, index: int) -> ParameterInfo {
        self.params.params@[index].info
    }

    open spec fn param_value_spec(&self, id: u32) -> Option<NormalizedValue> {
        if index_of_id(self.params.params@, id) >= 0 {
            Some(self.params.params@[index_of_id(self.params.params@, id)].value_normalized)
        } else {
            None
        }
    }

    open spec fn state_values_spec(&self) -> Seq<u64> {
        param_values(self.params.params@)
    }

    fn get_parameter_count(&self) -> (r: Result<usize, ResultErr>) {
        Ok(self.params.get_parameter_count())
    }

    fn get_parameter_info(&self, index: usize) -> (r: Result<&ParameterInfo, ResultErr>) {
        match self.params.get_parameter_by_index(index) {
            Some(p) => Ok(p.get_info()),
            None => Err(ResultErr::InvalidArgument),
        }
    }

    fn get_param_normalized(&self, id: u32) -> (r: Result<NormalizedValue, ResultErr>) {
        proof {
            lemma_index_of_id_in_range(self.params.params@, id);
        }
        match self.params.get_parameter(id) {
            Some(p) => Ok(p.get_normalized()),
            None => Err(ResultErr::ResultFalse),
        }
    }

    fn set_param_normalized(&mut self, id: u32, value: NormalizedValue) -> (r: Result<
        ResultOk,
        ResultErr,
    >) {
        proof {
            lemma_index_of_id_in_range(self.params.params@, id);
        }
        let ghost pre = self.params.params@;
        let ghost idx = index_of_id(pre, id);
        match self.params.get_parameter_mut(id) {
            Some(p) => {
                p.set_normalized(value);
                proof {
                    lemma_index_of_id_update(pre, idx, self.params.params@[idx], id);
                    assert forall|id2: u32| id2 != id implies #[trigger] self.param_value_spec(
                        id2,
                    ) == old(self).param_value_spec(id2) by {
                        lemma_index_of_id_update(pre, idx, self.params.params@[idx], id2);
                        lemma_index_of_id_in_range(pre, id2);
                    }
                }
                Ok(ResultOk::ResOk)
            },
            None => Err(ResultErr::ResultFalse),
        }
    }

    fn set_component_state(&mut self, state: &mut ByteStream) -> (r: Result<ResultOk, ResultErr>) {
        read_parameter_state(&mut self.params, state)
    }

    fn set_state(&mut self, state: &mut ByteStream) -> (r: Result<ResultOk, ResultErr>) {
        read_parameter_state(&mut self.params, state)
    }

    fn get_state(&self, state: &mut ByteStream) -> (r: Result<ResultOk, ResultErr>) {
        write_parameter_state(&self.params, state)
    }
}


impl UnitInfo for BaseEditController {
    open spec fn unit_count_spec(&self) -> nat {
        self.units@.len()
    }

    open spec fn unit_spec(&self, index: int) -> Unit {
        self.units@[index]
    }

    open spec fn program_list_count_spec(&self) -> nat {
        self.program_lists@.len()
    }

    open spec fn program_list_spec(&self, index: int) -> ProgramList {
        self.program_lists@[index]
    }

    open spec fn selected_unit_spec(&self) -> i32 {
        self.selected_unit
    }

    open spec fn accepts_unit_spec(&self, id: i32) -> bool {
        has_unit(self.units@, id)
    }

    fn get_unit_count(&self) -> (r: Result<i32, ResultErr>) {
        if self.units.len() > i32::MAX as usize {
            Err(ResultErr::InternalError)
        } else {
            Ok(self.units.len() as i32)
        }
    }

    fn get_unit_info(&self, unit_index: i32) -> (r: Result<&Unit, ResultErr>) {
        if unit_index < 0 || unit_index as usize >= self.units.len() {
            return Err(ResultErr::InvalidArgument);
        }
        Ok(&self.units[unit_index as usize])
    }

    fn get_program_list_count(&self) -> (r: Result<i32, ResultErr>) {
        if self.program_lists.len() > i32::MAX as usize {
            Err(ResultErr::InternalError)
        } else {
            Ok(self.program_lists.len() as i32)
        }
    }

    fn get_program_list_info(&self, list_index: i32) -> (r: Result<&ProgramList, ResultErr>) {
        if list_index < 0 || list_index as usize >= self.program_lists.len() {
            return Err(ResultErr::InvalidArgument);
        }
        Ok(&self.program_lists[list_index as usize])
    }

    fn get_selected_unit(&self) -> (r: Result<i32, ResultErr>) {
        Ok(self.selected_unit)
    }

    fn select_unit(&mut self, id: i32) -> (r: Result<ResultOk, ResultErr>) {
        let mut i: usize = 0;
        while i < self.units.len()
            invariant
                i <= self.units@.len(),
                *self == *old(self),
                forall|j: int| 0 <= j < i as int ==> #[trigger] self.units@[j].id != id,
            decreases self.units@.len() - i,
        {
            if self.units[i].id == id {
                self.selected_unit = id;
                return Ok(ResultOk::ResOk);
            }
            i = i + 1;
        }
        proof {
            assert(!has_unit(self.units@, id));
        }
        Err(ResultErr::InvalidArgument)
    }
}


/// Law: a second `initialize` without an intervening `terminate` fails
/// while the first succeeds, for every implementation of the lifecycle
/// contract, and the failing call changes nothing.
pub fn initialize_twice<P: PluginBase>(p: &mut P) -> (r: (bool, bool))
    requires
        !old(p).initialized(),
    ensures
        r == (true, false),
        final(p).initialized(),
{
    let first = p.initialize();
    let ghost mid = *p;
    let second = p.initialize();
    proof {
        assert(*p == mid);
    }
    (first, second)
}

/// Law: after `terminate`, the bus tables and the parameter list read
/// back empty, and a bus query at any index fails rather than handing
/// back stale data.
pub fn terminate_then_query(
    c: &mut BaseComponent,
    media_type: MediaType,
    dir: BusDirection,
    index: usize,
) -> (r: (usize, Option<BusInfo>, usize))
    ensures
        r.0 == 0,
        r.1 is None,
        r.2 == 0,
{
    let _ = c.terminate();
    let count = c.get_bus_count(&media_type, &dir);
    let info = c.get_bus_info(&media_type, &dir, index);
    let params = c.params.get_parameter_count();
    (count, info, params)
}

/// Law: persisting a component's state and restoring it through the same
/// path succeeds and reproduces every parameter value exactly, bit for
/// bit.
pub fn state_round_trip(c: &mut BaseComponent) -> (ok: bool)
    requires
        8 * old(c).params.params@.len() <= usize::MAX,
    ensures
        ok,
        param_values(final(c).params.params@) == param_values(old(c).params.params@),
{
    let mut stream = ByteStream::new();
    let wrote = c.get_state(&mut stream);
    stream.rewind();
    proof {
        assert(stream.bytes@.skip(0) =~= stream.bytes@);
        crate::stream::lemma_values_round_trip(param_values(c.params.params@));
    }
    let read = c.set_state(&mut stream);
    wrote && read
}

} // verus!
