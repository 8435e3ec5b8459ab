//! Parameters: per-parameter metadata, the live normalized value, and the
//! container that holds a controller's parameters in declaration order and
//! finds them by id.
//!
//! A normalized value is a 64-bit floating-point number in the unit
//! interval.  This layer never does arithmetic on it: it carries the raw
//! bit pattern, so storing and persisting are exact, bit for bit.

use vstd::prelude::*;

use crate::unit::ROOT_UNIT_ID;

verus! {

pub const NO_FLAGS: i32 = 0;

pub const CAN_AUTOMATE: i32 = 1;

pub const IS_READ_ONLY: i32 = 1 << 1;

pub const IS_WRAP_AROUND: i32 = 1 << 2;

pub const IS_LIST: i32 = 1 << 3;

pub const IS_PROGRAM_CHANGE: i32 = 1 << 15;

pub const IS_BYPASS: i32 = 1 << 16;

/// A capability flag of one parameter.
#[derive(Clone, Copy, Debug, PartialEq, Eq, Structural)]
pub enum ParameterFlag {
    NoFlags,
    CanAutomate,
    IsReadOnly,
    IsWrapAround,
    IsList,
    IsProgramChange,
    IsBypass,
}

impl ParameterFlag {
    pub open spec fn bit_spec(self) -> i32 {
        match self {
            ParameterFlag::NoFlags => NO_FLAGS,
            ParameterFlag::CanAutomate => CAN_AUTOMATE,
            ParameterFlag::IsReadOnly => IS_READ_ONLY,
            ParameterFlag::IsWrapAround => IS_WRAP_AROUND,
            ParameterFlag::IsList => IS_LIST,
            ParameterFlag::IsProgramChange => IS_PROGRAM_CHANGE,
            ParameterFlag::IsBypass => IS_BYPASS,
        }
    }

    /// The bit this flag occupies in the foreign flag word.
    pub fn bit(self) -> (r: i32)
        ensures
            r == self.bit_spec(),
    {
        match self {
            ParameterFlag::NoFlags => NO_FLAGS,
            ParameterFlag::CanAutomate => CAN_AUTOMATE,
            ParameterFlag::IsReadOnly => IS_READ_ONLY,
            ParameterFlag::IsWrapAround => IS_WRAP_AROUND,
            ParameterFlag::IsList => IS_LIST,
            ParameterFlag::IsProgramChange => IS_PROGRAM_CHANGE,
            ParameterFlag::IsBypass => IS_BYPASS,
        }
    }
}

/// A normalized parameter value in the unit interval, carried as the raw
/// bits of its 64-bit floating-point representation.  The layer stores and
/// moves it bit for bit and never computes on it.
#[derive(Clone, Copy, Debug, PartialEq, Eq, Structural)]
pub struct NormalizedValue {
    pub bits: u64,
}

impl NormalizedValue {
    /// The value zero: the all-zero bit pattern.
    pub fn zero() -> (r: Self)
        ensures
            r.bits == 0,
    {
        NormalizedValue { bits: 0 }
    }

    pub fn from_bits(bits: u64) -> (r: Self)
        ensures
            r.bits == bits,
    {
        NormalizedValue { bits }
    }
}

/// The metadata of one parameter.
pub struct ParameterInfo {
    pub id: i32,
    pub title: String,
    pub short_title: Option<String>,
    pub units: Option<String>,
    pub step_count: i32,
    pub default_normalized_value: NormalizedValue,
    pub unit_id: i32,
    pub flags: i32,
}

/// Builds a `ParameterInfo`: continuous, defaulting to zero, owned by the
/// root unit, automatable, unless overridden.
pub struct ParameterInfoBuilder {
    pub id: u32,
    pub title: String,
    pub short_title: Option<String>,
    pub units: Option<String>,
    pub step_count: i32,
    pub default_normalized_value: NormalizedValue,
    pub unit_id: i32,
    pub flags: i32,
}

impl ParameterInfoBuilder {
    pub fn new(title: &str, id: u32) -> (r: Self)
        ensures
            r.id == id,
            r.title@ == title@,
            r.short_title is None,
            r.units is None,
            r.step_count == 0,
            r.default_normalized_value.bits == 0,
            r.unit_id == ROOT_UNIT_ID,
            r.flags == CAN_AUTOMATE,
    {
        ParameterInfoBuilder {
            id,
            title: title.to_string(),
            short_title: None,
            units: None,
            step_count: 0,
            default_normalized_value: NormalizedValue::zero(),
            unit_id: ROOT_UNIT_ID,
            flags: CAN_AUTOMATE,
        }
    }

    pub fn short_title(self, short_title: &str) -> (r: Self)
        ensures
            r.short_title matches Some(t) && t@ == short_title@,
            r.id == self.id,
            r.title == self.title,
            r.units == self.units,
            r.step_count == self.step_count,
            r.default_normalized_value == self.default_normalized_value,
            r.unit_id == self.unit_id,
            r.flags == self.flags,
    {
        let mut out = self;
        out.short_title = Some(short_title.to_string());
        out
    }

    pub fn units(self, units: &str) -> (r: Self)
        ensures
            r.units matches Some(u) && u@ == units@,
            r.id == self.id,
            r.title == self.title,
            r.short_title == self.short_title,
            r.step_count == self.step_count,
            r.default_normalized_value == self.default_normalized_value,
            r.unit_id == self.unit_id,
            r.flags == self.flags,
    {
        let mut out = self;
        out.units = Some(units.to_string());
        out
    }

    pub fn step_count(self, step_count: i32) -> (r: Self)
        ensures
            r.step_count == step_count,
            r.id == self.id,
            r.title == self.title,
            r.short_title == self.short_title,
            r.units == self.units,
            r.default_normalized_value == self.default_normalized_value,
            r.unit_id == self.unit_id,
            r.flags == self.flags,
    {
        let mut out = self;
        out.step_count = step_count;
        out
    }

    pub fn default_normalized_value(self, val: NormalizedValue) -> (r: Self)
        ensures
            r.default_normalized_value == val,
            r.id == self.id,
            r.title == self.title,
            r.short_title == self.short_title,
            r.units == self.units,
            r.step_count == self.step_count,
            r.unit_id == self.unit_id,
            r.flags == self.flags,
    {
        let mut out = self;
        out.default_normalized_value = val;
        out
    }

    pub fn unit_id(self, unit_id: i32) -> (r: Self)
        ensures
            r.unit_id == unit_id,
            r.id == self.id,
            r.title == self.title,
            r.short_title == self.short_title,
            r.units == self.units,
            r.step_count == self.step_count,
            r.default_normalized_value == self.default_normalized_value,
            r.flags == self.flags,
    {
        let mut out = self;
        out.unit_id = unit_id;
        out
    }

    pub fn flags(self, flags: i32) -> (r: Self)
        ensures
            r.flags == flags,
            r.id == self.id,
            r.title == self.title,
            r.short_title == self.short_title,
            r.units == self.units,
            r.step_count == self.step_count,
            r.default_normalized_value == self.default_normalized_value,
            r.unit_id == self.unit_id,
    {
        let mut out = self;
        out.flags = flags;
        out
    }

    /// The metadata this builder describes.  The identifier is carried into
    /// the foreign signed field unchanged in value for identifiers below
    /// the sign bit.
    pub fn build(&self) -> (r: ParameterInfo)
        requires
            self.id <= i32::MAX as u32,
        ensures
            r.id == self.id as i32,
            r.title == self.title,
            r.short_title == self.short_title,
            r.units == self.units,
            r.step_count == self.step_count,
            r.default_normalized_value == self.default_normalized_value,
            r.unit_id == self.unit_id,
            r.flags == self.flags,
    {
        ParameterInfo {
            id: self.id as i32,
            title: self.title.clone(),
            short_title: match &self.short_title {
                Some(t) => Some(t.clone()),
                None => None,
            },
            units: match &self.units {
                Some(u) => Some(u.clone()),
                None => None,
            },
            step_count: self.step_count,
            default_normalized_value: self.default_normalized_value,
            unit_id: self.unit_id,
            flags: self.flags,
        }
    }
}

/// One live parameter: its metadata, its current normalized value, and
/// the display precision a controller may use for it.
pub struct BaseParameter {
    pub info: ParameterInfo,
    pub value_normalized: NormalizedValue,
    pub precision: usize,
}

impl BaseParameter {
    /// A fresh parameter starting at its declared default value.
    pub fn new(info: ParameterInfo) -> (r: Box<Self>)
        ensures
            r.value_normalized == info.default_normalized_value,
            r.info == info,
            r.precision == 4,
    {
        Box::new(
            BaseParameter { value_normalized: info.default_normalized_value, info, precision: 4 },
        )
    }

    pub fn get_info(&self) -> (r: &ParameterInfo)
        ensures
            r == &self.info,
    {
        &self.info
    }

    pub fn set_unit_id(&mut self, id: i32)
        ensures
            final(self).info.unit_id == id,
            final(self).info.id == old(self).info.id,
            final(self).info.title == old(self).info.title,
            final(self).info.short_title == old(self).info.short_title,
            final(self).info.units == old(self).info.units,
            final(self).info.step_count == old(self).info.step_count,
            final(self).info.default_normalized_value == old(self).info.default_normalized_value,
            final(self).info.flags == old(self).info.flags,
            final(self).value_normalized == old(self).value_normalized,
            final(self).precision == old(self).precision,
    {
        self.info.unit_id = id;
    }

    pub fn get_unit_id(&self) -> (r: i32)
        ensures
            r == self.info.unit_id,
    {
        self.info.unit_id
    }

    /// Stores a new normalized value, bit for bit.
    pub fn set_normalized(&mut self, v: NormalizedValue)
        ensures
            final(self).value_normalized == v,
            final(self).info == old(self).info,
            final(self).precision == old(self).precision,
    {
        self.value_normalized = v;
    }

    pub fn get_normalized(&self) -> (r: NormalizedValue)
        ensures
            r == self.value_normalized,
    {
        self.value_normalized
    }

    pub fn set_precision(&mut self, val: usize)
        ensures
            final(self).precision == val,
            final(self).info == old(self).info,
            final(self).value_normalized == old(self).value_normalized,
    {
        self.precision = val;
    }

    pub fn get_precision(&self) -> (r: usize)
        ensures
            r == self.precision,
    {
        self.precision
    }
}

/// The index of the parameter a tag names: the last parameter added with
/// that id, or -1 when none has it.  A later parameter with the same id
/// shadows an earlier one, as an id-keyed registry would.
pub open spec fn index_of_id(s: Seq<BaseParameter>, tag: u32) -> int
    decreases s.len(),
{
    if s.len() == 0 {
        -1
    } else if s[s.len() - 1].info.id as u32 == tag {
        s.len() - 1
    } else {
        index_of_id(s.drop_last(), tag)
    }
}

pub proof fn lemma_index_of_id_in_range(s: Seq<BaseParameter>, tag: u32)
    ensures
        index_of_id(s, tag) == -1 || (0 <= index_of_id(s, tag) < s.len() && s[index_of_id(
            s,
            tag,
        )].info.id as u32 == tag),
    decreases s.len(),
{
    if s.len() > 0 && s[s.len() - 1].info.id as u32 != tag {
        lemma_index_of_id_in_range(s.drop_last(), tag);
        if index_of_id(s.drop_last(), tag) >= 0 {
            assert(s.drop_last()[index_of_id(s.drop_last(), tag)] == s[index_of_id(
                s.drop_last(),
                tag,
            )]);
        }
    }
}


/// Replacing a parameter with one of the same id moves no lookup: the
/// index every tag resolves to is unchanged.
pub proof fn lemma_index_of_id_update(s: Seq<BaseParameter>, i: int, p: BaseParameter, tag: u32)
    requires
        0 <= i < s.len(),
        p.info.id == s[i].info.id,
    ensures
        index_of_id(s.update(i, p), tag) == index_of_id(s, tag),
    decreases s.len(),
{
    let t = s.update(i, p);
    assert(t.len() == s.len());
    if i == s.len() - 1 {
        assert(t[t.len() - 1] == p);
        assert(t.drop_last() =~= s.drop_last());
    } else {
        assert(t[t.len() - 1] == s[s.len() - 1]);
        assert(t.drop_last() =~= s.drop_last().update(i, p));
        lemma_index_of_id_update(s.drop_last(), i, p, tag);
    }
}

/// A controller's parameters, in declaration order, found by index or by
/// id.
pub struct ParameterContainer {
    pub params: Vec<BaseParameter>,
}

impl ParameterContainer {
    /// An empty container.
    pub fn new() -> (r: Self)
        ensures
            r.params@.len() == 0,
    {
        ParameterContainer { params: Vec::new() }
    }

    /// Appends a parameter; a later parameter with an already-used id
    /// shadows the earlier one for lookups by id.
    pub fn add_parameter(&mut self, p: Box<BaseParameter>)
        ensures
            final(self).params@ == old(self).params@.push(*p),
    {
        self.params.push(*p);
    }

    /// How many parameters are declared.
    pub fn get_parameter_count(&self) -> (r: usize)
        ensures
            r == self.params@.len(),
    {
        self.params.len()
    }

    /// The parameter at a declaration index, if the index is in range.
    pub fn get_parameter_by_index(&self, index: usize) -> (r: Option<&BaseParameter>)
        ensures
            index < self.params@.len() ==> r == Some(&self.params@[index as int]),
            index >= self.params@.len() ==> r is None,
    {
        if index < self.params.len() {
            Some(&self.params[index])
        } else {
            None
        }
    }

    /// Removes every parameter.
    pub fn remove_all(&mut self)
        ensures
            final(self).params@.len() == 0,
    {
        self.params.clear();
    }

    fn find_index(&self, tag: u32) -> (r: Option<usize>)
        ensures
            match r {
                Some(i) => i as int == index_of_id(self.params@, tag),
                None => index_of_id(self.params@, tag) == -1,
            },
    {
        let mut i: usize = self.params.len();
        proof {
            assert(self.params@.take(i as int) =~= self.params@);
        }
        while i > 0
            invariant
                i <= self.params@.len(),
                index_of_id(self.params@, tag) == index_of_id(self.params@.take(i as int), tag),
            decreases i,
        {
            i = i - 1;
            if self.params[i].get_info().id as u32 == tag {
                proof {
                    let pre = self.params@.take(i as int + 1);
                    assert(pre[pre.len() - 1] == self.params@[i as int]);
                    lemma_index_of_id_in_range(self.params@, tag);
                }
                return Some(i);
            }
            proof {
                let pre = self.params@.take(i as int + 1);
                assert(pre[pre.len() - 1] == self.params@[i as int]);
                assert(pre.drop_last() =~= self.params@.take(i as int));
            }
        }
        proof {
            assert(self.params@.take(0) =~= Seq::<BaseParameter>::empty());
        }
        None
    }

    /// The parameter a tag names, if any: the last one added with that id.
    pub fn get_parameter(&self, tag: u32) -> (r: Option<&BaseParameter>)
        ensures
            index_of_id(self.params@, tag) == -1 ==> r is None,
            index_of_id(self.params@, tag) >= 0 ==> (r matches Some(p) && *p == self.params@[
                index_of_id(self.params@, tag)
            ]),
    {
        match self.find_index(tag) {
            Some(i) => {
                proof {
                    lemma_index_of_id_in_range(self.params@, tag);
                }
                Some(&self.params[i])
            },
            None => None,
        }
    }

    /// The parameter a tag names, for mutation; the rest stays unchanged.
    pub fn get_parameter_mut(&mut self, tag: u32) -> (r: Option<&mut BaseParameter>)
        ensures
            index_of_id(old(self).params@, tag) == -1 ==> r.is_none() && *final(self) == *old(
                self,
            ),
            index_of_id(old(self).params@, tag) >= 0 ==> r.is_some() && *r.unwrap() == old(
                self,
            ).params@[index_of_id(old(self).params@, tag)] && final(self).params@ == old(
                self,
            ).params@.update(index_of_id(old(self).params@, tag), *final(r.unwrap())),
    {
        proof {
            lemma_index_of_id_in_range(self.params@, tag);
        }
        match self.find_index(tag) {
            Some(i) => Some(&mut self.params[i]),
            None => None,
        }
    }
}

} // verus!
