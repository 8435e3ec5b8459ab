//! The edit-controller capability: parameter enumeration, live normalized
//! values, and state synchronization with the paired component.  The
//! string and plain-value conversions of a parameter are floating-point
//! work and live with the unverified embedding.

use vstd::prelude::*;

use crate::parameters::{NormalizedValue, ParameterInfo};
use crate::plugin_base::PluginBase;
use crate::stream::ByteStream;
use crate::unknown::{ResultErr, ResultOk};

verus! {

/// The edit-controller capability.  Each exec method's result is pinned
/// to a spec-level model, so the bridge contracts over any implementation
/// are exact.
pub trait EditController: PluginBase {
    /// How many parameters are declared.
    spec fn param_count_spec(&self) -> nat;

    /// The metadata of the parameter at a declaration index; meaningful
    /// below the count.
    spec fn param_info_spec(&self, index: int) -> ParameterInfo;

    /// The current normalized value of the parameter an id names, if any
    /// parameter has that id.
    spec fn param_value_spec(&self, id: u32) -> Option<NormalizedValue>;

    /// The persisted state: one 64-bit value per parameter, in
    /// declaration order.
    spec fn state_values_spec(&self) -> Seq<u64>;

    fn get_parameter_count(&self) -> (r: Result<usize, ResultErr>)
        ensures
            r matches Ok(c) && c == self.param_count_spec(),
    ;

    /// The metadata of the parameter at an index; an index at or past the
    /// count is rejected as an invalid argument.
    fn get_parameter_info(&self, index: usize) -> (r: Result<&ParameterInfo, ResultErr>)
        ensures
            index < self.param_count_spec() ==> (r matches Ok(info) && *info
                == self.param_info_spec(index as int)),
            index >= self.param_count_spec() ==> r == Err::<&ParameterInfo, ResultErr>(
                ResultErr::InvalidArgument,
            ),
    ;

    /// The current value of the parameter an id names; an unknown id
    /// fails with the false outcome.
    fn get_param_normalized(&self, id: u32) -> (r: Result<NormalizedValue, ResultErr>)
        ensures
            self.param_value_spec(id) matches Some(v) ==> r == Ok::<NormalizedValue, ResultErr>(v),
            self.param_value_spec(id) is None ==> r == Err::<NormalizedValue, ResultErr>(
                ResultErr::ResultFalse,
            ),
    ;

    /// Stores a new value for the parameter an id names, bit for bit; an
    /// unknown id fails with the false outcome and changes nothing.
    fn set_param_normalized(&mut self, id: u32, value: NormalizedValue) -> (r: Result<
        ResultOk,
        ResultErr,
    >)
        ensures
            old(self).param_value_spec(id) is Some ==> {
                &&& r == Ok::<ResultOk, ResultErr>(ResultOk::ResOk)
                &&& final(self).param_value_spec(id) == Some(value)
                &&& final(self).param_count_spec() == old(self).param_count_spec()
                &&& final(self).initialized() == old(self).initialized()
                &&& forall|i: int|
                    0 <= i < old(self).param_count_spec() ==> #[trigger] final(self).param_info_spec(i) == old(self).param_info_spec(i)
                &&& forall|id2: u32|
                    id2 != id ==> #[trigger] final(self).param_value_spec(id2) == old(self).param_value_spec(id2)
            },
            old(self).param_value_spec(id) is None ==> r == Err::<ResultOk, ResultErr>(
                ResultErr::ResultFalse,
            ) && *final(self) == *old(self),
    ;

    /// Restores the paired component's persisted state into the
    /// controller's parameters: one value per declared parameter, in
    /// declaration order.  A stream too short for the declared count
    /// fails with the false outcome and changes nothing.
    fn set_component_state(&mut self, state: &mut ByteStream) -> (r: Result<ResultOk, ResultErr>)
        requires
            old(state).wf(),
        ensures
            final(state).bytes == old(state).bytes,
            final(state).wf(),
            final(self).initialized() == old(self).initialized(),
            old(state).pos + 8 * old(self).state_values_spec().len() <= old(state).bytes@.len() ==> {
                &&& r == Ok::<ResultOk, ResultErr>(ResultOk::ResOk)
                &&& final(self).state_values_spec() == crate::stream::decode_values(
                    old(state).bytes@.skip(old(state).pos as int),
                    old(self).state_values_spec().len(),
                )
                &&& final(state).pos == old(state).pos + 8 * old(self).state_values_spec().len()
            },
            old(state).pos + 8 * old(self).state_values_spec().len() > old(state).bytes@.len()
                ==> r == Err::<ResultOk, ResultErr>(ResultErr::ResultFalse) && *final(self) == *old(self),
    ;

    /// Restores the controller's own persisted state.
    fn set_state(&mut self, state: &mut ByteStream) -> (r: Result<ResultOk, ResultErr>)
        requires
            old(state).wf(),
        ensures
            final(state).bytes == old(state).bytes,
            final(state).wf(),
            final(self).initialized() == old(self).initialized(),
            old(state).pos + 8 * old(self).state_values_spec().len() <= old(state).bytes@.len() ==> {
                &&& r == Ok::<ResultOk, ResultErr>(ResultOk::ResOk)
                &&& final(self).state_values_spec() == crate::stream::decode_values(
                    old(state).bytes@.skip(old(state).pos as int),
                    old(self).state_values_spec().len(),
                )
                &&& final(state).pos == old(state).pos + 8 * old(self).state_values_spec().len()
            },
            old(state).pos + 8 * old(self).state_values_spec().len() > old(state).bytes@.len()
                ==> r == Err::<ResultOk, ResultErr>(ResultErr::ResultFalse) && *final(self) == *old(self),
    ;

    /// Appends the controller's own persisted state to the stream.
    fn get_state(&self, state: &mut ByteStream) -> (r: Result<ResultOk, ResultErr>)
        requires
            old(state).wf(),
            old(state).pos == old(state).bytes@.len(),
            old(state).bytes@.len() + 8 * self.state_values_spec().len() <= usize::MAX,
        ensures
            r == Ok::<ResultOk, ResultErr>(ResultOk::ResOk),
            final(state).bytes@ == old(state).bytes@ + crate::stream::encode_values(
                self.state_values_spec(),
            ),
            final(state).pos == final(state).bytes@.len(),
            final(state).wf(),
    ;
}

/// The midi-mapping capability: which parameter a controller assigns to a
/// midi control channel, if any.
pub trait MidiMapping: EditController {
    /// The parameter id assigned to a bus, channel and controller number,
    /// if any.
    spec fn midi_assignment_spec(&self, bus_index: i32, channel: i16, controller_number: i16) -> Option<u32>;

    fn get_midi_controller_assignment(&self, bus_index: i32, channel: i16, midi_controller_number: i16) -> (r: Result<u32, ResultErr>)
        ensures
            self.midi_assignment_spec(bus_index, channel, midi_controller_number) matches Some(id)
                ==> r == Ok::<u32, ResultErr>(id),
            self.midi_assignment_spec(bus_index, channel, midi_controller_number) is None ==> r
                == Err::<u32, ResultErr>(ResultErr::ResultFalse),
    ;
}

} // verus!
