//! The unit-info capability: the unit tree and program lists a controller
//! publishes, and unit selection.

use vstd::prelude::*;

use crate::edit_controller::EditController;
use crate::unit::{ProgramList, Unit};
use crate::unknown::{ResultErr, ResultOk};

verus! {

/// The unit-info capability.  Each exec method's result is pinned to a
/// spec-level model, so the bridge contracts over any implementation are
/// exact.
pub trait UnitInfo: EditController {
    /// How many units are declared.
    spec fn unit_count_spec(&self) -> nat;

    /// The unit at a declaration index; meaningful below the count.
    spec fn unit_spec(&self, index: int) -> Unit;

    /// How many program lists are declared.
    spec fn program_list_count_spec(&self) -> nat;

    /// The program list at a declaration index; meaningful below the
    /// count.
    spec fn program_list_spec(&self, index: int) -> ProgramList;

    /// The currently selected unit.
    spec fn selected_unit_spec(&self) -> i32;

    /// Whether a unit id can be selected.
    spec fn accepts_unit_spec(&self, id: i32) -> bool;

    fn get_unit_count(&self) -> (r: Result<i32, ResultErr>)
        ensures
            self.unit_count_spec() <= i32::MAX ==> (r matches Ok(c) && c
                == self.unit_count_spec()),
            self.unit_count_spec() > i32::MAX ==> r == Err::<i32, ResultErr>(
                ResultErr::InternalError,
            ),
    ;

    /// The unit at an index; a negative or out-of-range index is rejected
    /// as an invalid argument.
    fn get_unit_info(&self, unit_index: i32) -> (r: Result<&Unit, ResultErr>)
        ensures
            0 <= unit_index < self.unit_count_spec() ==> (r matches Ok(u) && *u == self.unit_spec(
                unit_index as int,
            )),
            !(0 <= unit_index < self.unit_count_spec()) ==> r == Err::<&Unit, ResultErr>(
                ResultErr::InvalidArgument,
            ),
    ;

    fn get_program_list_count(&self) -> (r: Result<i32, ResultErr>)
        ensures
            self.program_list_count_spec() <= i32::MAX ==> (r matches Ok(c) && c
                == self.program_list_count_spec()),
            self.program_list_count_spec() > i32::MAX ==> r == Err::<i32, ResultErr>(
                ResultErr::InternalError,
            ),
    ;

    /// The program list at an index; a negative or out-of-range index is
    /// rejected as an invalid argument.
    fn get_program_list_info(&self, list_index: i32) -> (r: Result<&ProgramList, ResultErr>)
        ensures
            0 <= list_index < self.program_list_count_spec() ==> (r matches Ok(l) && *l
                == self.program_list_spec(list_index as int)),
            !(0 <= list_index < self.program_list_count_spec()) ==> r == Err::<
                &ProgramList,
                ResultErr,
            >(ResultErr::InvalidArgument),
    ;

    fn get_selected_unit(&self) -> (r: Result<i32, ResultErr>)
        ensures
            r == Ok::<i32, ResultErr>(self.selected_unit_spec()),
    ;

    /// Selects a unit.  Succeeds exactly on an accepted id; a failed call
    /// changes nothing.
    fn select_unit(&mut self, id: i32) -> (r: Result<ResultOk, ResultErr>)
        ensures
            old(self).accepts_unit_spec(id) ==> {
                &&& r == Ok::<ResultOk, ResultErr>(ResultOk::ResOk)
                &&& final(self).selected_unit_spec() == id
                &&& final(self).unit_count_spec() == old(self).unit_count_spec()
                &&& final(self).program_list_count_spec() == old(self).program_list_count_spec()
                &&& final(self).param_count_spec() == old(self).param_count_spec()
                &&& final(self).initialized() == old(self).initialized()
            },
            !old(self).accepts_unit_spec(id) ==> r == Err::<ResultOk, ResultErr>(
                ResultErr::InvalidArgument,
            ) && *final(self) == *old(self),
    ;
}

/// Whether any unit in the list carries an id.
pub open spec fn has_unit(s: Seq<Unit>, id: i32) -> bool {
    exists|i: int| 0 <= i < s.len() && s[i].id == id
}

} // verus!
