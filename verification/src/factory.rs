//! The factory: the table of instantiable classes the module publishes,
//! its vendor metadata, and lookup by class identifier.

use vstd::prelude::*;

use crate::common::{ClassInfo, UID};
use crate::unknown::{ResultErr, ResultOk};

verus! {

/// The factory-level metadata the host may query.
pub struct FactoryInfo {
    pub vendor: String,
    pub url: String,
    pub email: String,
    pub flags: i32,
}

/// The first class whose identifier matches, or -1.
pub open spec fn find_class(s: Seq<ClassInfo>, cid: UID) -> int
    decreases s.len(),
{
    if s.len() == 0 {
        -1
    } else if s[0].cid == cid {
        0
    } else if find_class(s.drop_first(), cid) == -1 {
        -1
    } else {
        1 + find_class(s.drop_first(), cid)
    }
}

pub proof fn lemma_find_class_in_range(s: Seq<ClassInfo>, cid: UID)
    ensures
        find_class(s, cid) == -1 || (0 <= find_class(s, cid) < s.len() && s[find_class(
            s,
            cid,
        )].cid == cid),
    decreases s.len(),
{
    if s.len() > 0 && s[0].cid != cid {
        lemma_find_class_in_range(s.drop_first(), cid);
    }
}

/// A factory over a fixed table of classes, registered once at
/// construction and enumerated or searched by the host.
pub struct BaseFactory {
    pub info: FactoryInfo,
    pub classes: Vec<ClassInfo>,
    pub host_context_set: bool,
}

impl BaseFactory {
    /// A factory publishing the given classes, with no host context yet.
    pub fn new(info: FactoryInfo, classes: Vec<ClassInfo>) -> (r: Self)
        ensures
            r.info == info,
            r.classes == classes,
            !r.host_context_set,
    {
        BaseFactory { info, classes, host_context_set: false }
    }

    /// The factory-level metadata.
    pub fn get_factory_info(&self) -> (r: &FactoryInfo)
        ensures
            r == &self.info,
    {
        &self.info
    }

    /// How many classes the factory publishes.
    pub fn count_classes(&self) -> (r: Result<usize, ResultErr>)
        ensures
            r matches Ok(c) && c == self.classes@.len(),
    {
        Ok(self.classes.len())
    }

    /// The class at an index; an index at or past the count is rejected
    /// as an invalid argument.
    pub fn get_class_info(&self, index: usize) -> (r: Result<&ClassInfo, ResultErr>)
        ensures
            index < self.classes@.len() ==> (r matches Ok(info) && *info == self.classes@[
                index as int
            ]),
            index >= self.classes@.len() ==> r == Err::<&ClassInfo, ResultErr>(
                ResultErr::InvalidArgument,
            ),
    {
        if index < self.classes.len() {
            Ok(&self.classes[index])
        } else {
            Err(ResultErr::InvalidArgument)
        }
    }

    /// The table index of the class an identifier names: what
    /// instantiation resolves before the embedding constructs the
    /// matching implementation.  An identifier naming no class fails with
    /// the false outcome.
    pub fn find_class_index(&self, cid: &UID) -> (r: Result<usize, ResultErr>)
        ensures
            find_class(self.classes@, *cid) >= 0 ==> (r matches Ok(i) && i as int == find_class(
                self.classes@,
                *cid,
            )),
            find_class(self.classes@, *cid) == -1 ==> r == Err::<usize, ResultErr>(
                ResultErr::ResultFalse,
            ),
    {
        proof {
            lemma_find_class_in_range(self.classes@, *cid);
        }
        let mut i: usize = 0;
        while i < self.classes.len()
            invariant
                i <= self.classes@.len(),
                find_class(self.classes@, *cid) == -1 || find_class(self.classes@, *cid)
                    >= i as int,
            decreases self.classes@.len() - i,
        {
            if uid_eq(self.classes[i].get_cid(), cid) {
                proof {
                    lemma_find_class_prefix(self.classes@, *cid, i as int);
                }
                return Ok(i);
            }
            proof {
                lemma_find_class_skip(self.classes@, *cid, i as int);
            }
            i = i + 1;
        }
        Err(ResultErr::ResultFalse)
    }

    /// Records the host context, exactly once: a second attempt fails
    /// with the false outcome and changes nothing.
    pub fn set_host_context(&mut self) -> (r: Result<ResultOk, ResultErr>)
        ensures
            !old(self).host_context_set ==> r == Ok::<ResultOk, ResultErr>(ResultOk::ResOk)
                && final(self).host_context_set,
            old(self).host_context_set ==> r == Err::<ResultOk, ResultErr>(ResultErr::ResultFalse)
                && *final(self) == *old(self),
            final(self).info == old(self).info,
            final(self).classes == old(self).classes,
    {
        if self.host_context_set {
            return Err(ResultErr::ResultFalse);
        }
        self.host_context_set = true;
        Ok(ResultOk::ResOk)
    }
}

fn uid_eq(a: &UID, b: &UID) -> (r: bool)
    ensures
        r == (*a == *b),
{
    a.w0 == b.w0 && a.w1 == b.w1 && a.w2 == b.w2 && a.w3 == b.w3
}

proof fn lemma_find_class_prefix(s: Seq<ClassInfo>, cid: UID, i: int)
    requires
        0 <= i < s.len(),
        s[i].cid == cid,
        find_class(s, cid) == -1 || find_class(s, cid) >= i,
    ensures
        find_class(s, cid) == i,
    decreases s.len(),
{
    lemma_find_class_in_range(s, cid);
    if i > 0 {
        assert(s.drop_first()[i - 1] == s[i]);
        lemma_find_class_in_range(s.drop_first(), cid);
        lemma_find_class_prefix(s.drop_first(), cid, i - 1);
    }
}

proof fn lemma_find_class_skip(s: Seq<ClassInfo>, cid: UID, i: int)
    requires
        0 <= i < s.len(),
        s[i].cid != cid,
        find_class(s, cid) == -1 || find_class(s, cid) >= i,
    ensures
        find_class(s, cid) == -1 || find_class(s, cid) >= i + 1,
    decreases s.len(),
{
    lemma_find_class_in_range(s, cid);
}

} // verus!
