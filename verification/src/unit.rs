//! Units: the tree of parameter groups a controller may publish, and the
//! program lists a unit can refer to.

use vstd::prelude::*;

verus! {

/// The root of the unit tree.
pub const ROOT_UNIT_ID: i32 = 0;

/// The unit has no parent.
pub const NO_PARENT_UNIT_ID: i32 = -1;

/// The unit refers to no program list.
pub const NO_PROGRAM_LIST_ID: i32 = -1;

/// One parameter group: its identity, its parent, and the program list it
/// refers to.
pub struct Unit {
    pub id: i32,
    pub parent_unit_id: i32,
    pub name: String,
    pub program_list_id: i32,
}

/// Builds a `Unit`, defaulting to a child of the root with no program
/// list.
pub struct UnitBuilder {
    pub id: i32,
    pub parent_unit_id: i32,
    pub name: String,
    pub program_list_id: i32,
}

impl UnitBuilder {
    pub fn new(name: &str, id: i32) -> (r: UnitBuilder)
        ensures
            r.id == id,
            r.parent_unit_id == ROOT_UNIT_ID,
            r.name@ == name@,
            r.program_list_id == NO_PROGRAM_LIST_ID,
    {
        UnitBuilder {
            id,
            parent_unit_id: ROOT_UNIT_ID,
            name: name.to_string(),
            program_list_id: NO_PROGRAM_LIST_ID,
        }
    }

    pub fn parent_unit_id(self, parent_unit_id: i32) -> (r: UnitBuilder)
        ensures
            r.parent_unit_id == parent_unit_id,
            r.id == self.id,
            r.name == self.name,
            r.program_list_id == self.program_list_id,
    {
        let mut out = self;
        out.parent_unit_id = parent_unit_id;
        out
    }

    pub fn program_list_id(self, program_list_id: i32) -> (r: UnitBuilder)
        ensures
            r.program_list_id == program_list_id,
            r.id == self.id,
            r.name == self.name,
            r.parent_unit_id == self.parent_unit_id,
    {
        let mut out = self;
        out.program_list_id = program_list_id;
        out
    }

    pub fn build(&self) -> (r: Unit)
        ensures
            r.id == self.id,
            r.parent_unit_id == self.parent_unit_id,
            r.name == self.name,
            r.program_list_id == self.program_list_id,
    {
        Unit {
            id: self.id,
            parent_unit_id: self.parent_unit_id,
            name: self.name.clone(),
            program_list_id: self.program_list_id,
        }
    }
}

/// One program list: its identity, name, and how many programs it holds.
pub struct ProgramList {
    pub id: i32,
    pub name: String,
    pub program_count: i32,
}

impl ProgramList {
    pub fn new(id: i32, name: &str, program_count: i32) -> (r: Self)
        ensures
            r.id == id,
            r.name@ == name@,
            r.program_count == program_count,
    {
        ProgramList { id, name: name.to_string(), program_count }
    }
}

} // verus!
