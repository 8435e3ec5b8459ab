//! The foreign reference-counting protocol: every bridge object carries
//! one count shared by all its interfaces, and a handle to a foreign
//! object acquires one reference at construction and releases exactly one
//! at drop.

use vstd::prelude::*;

use crate::common::UID;
use crate::unknown::{NO_INTERFACE_CODE, RESULT_OK_CODE};

verus! {

/// The shared reference count of one bridge object.  Construction yields
/// one reference; the count overflowing or underflowing is host misuse of
/// the protocol and is excluded by contract rather than handled.
pub struct RefCount {
    pub count: u32,
}

impl RefCount {
    /// The single reference a fresh bridge object starts with.
    pub fn new() -> (r: Self)
        ensures
            r.count == 1,
    {
        RefCount { count: 1 }
    }

    /// One more reference; the new count is handed back to the caller.
    pub fn add_ref(&mut self) -> (r: u32)
        requires
            old(self).count < u32::MAX,
        ensures
            final(self).count == old(self).count + 1,
            r == final(self).count,
    {
        self.count = self.count + 1;
        self.count
    }

    /// One reference fewer; a result of zero tells the caller to destroy
    /// the object, exactly once.
    pub fn release(&mut self) -> (r: u32)
        requires
            old(self).count > 0,
        ensures
            final(self).count == old(self).count - 1,
            r == final(self).count,
    {
        self.count = self.count - 1;
        self.count
    }
}

/// The first index holding an identifier, or -1.
pub open spec fn find_uid(s: Seq<UID>, x: UID) -> int
    decreases s.len(),
{
    if s.len() == 0 {
        -1
    } else if s[0] == x {
        0
    } else if find_uid(s.drop_first(), x) == -1 {
        -1
    } else {
        1 + find_uid(s.drop_first(), x)
    }
}

pub proof fn lemma_find_uid_in_range(s: Seq<UID>, x: UID)
    ensures
        find_uid(s, x) == -1 || (0 <= find_uid(s, x) < s.len() && s[find_uid(s, x)] == x),
    decreases s.len(),
{
    if s.len() > 0 && s[0] != x {
        lemma_find_uid_in_range(s.drop_first(), x);
    }
}

/// One interface query against a bridge object's table of supported
/// interfaces: the universal base identifier or any supported identifier
/// answers with the matching vtable slot and one more reference; anything
/// else answers no-interface and leaves the count alone.  The base
/// identifier maps to the first slot.
pub fn query_interface(supported: &Vec<UID>, base_iid: &UID, riid: &UID, refs: &mut RefCount) -> (r:
    (i32, Option<usize>))
    requires
        old(refs).count < u32::MAX,
        old(refs).count > 0,
    ensures
        *riid == *base_iid ==> r == (RESULT_OK_CODE, Some(0usize)) && final(refs).count == old(
            refs,
        ).count + 1,
        *riid != *base_iid && find_uid(supported@, *riid) >= 0 ==> r == (
            RESULT_OK_CODE,
            Some(find_uid(supported@, *riid) as usize),
        ) && final(refs).count == old(refs).count + 1,
        *riid != *base_iid && find_uid(supported@, *riid) == -1 ==> r == (
            NO_INTERFACE_CODE,
            None::<usize>,
        ) && *final(refs) == *old(refs),
{
    proof {
        lemma_find_uid_in_range(supported@, *riid);
    }
    if *riid == *base_iid {
        refs.add_ref();
        return (RESULT_OK_CODE, Some(0));
    }
    let mut i: usize = 0;
    while i < supported.len()
        invariant
            i <= supported@.len(),
            *riid != *base_iid,
            find_uid(supported@, *riid) == -1 || find_uid(supported@, *riid) >= i as int,
            *refs == *old(refs),
            old(refs).count < u32::MAX,
        decreases supported@.len() - i,
    {
        if supported[i] == *riid {
            proof {
                lemma_find_uid_prefix(supported@, *riid, i as int);
            }
            refs.add_ref();
            return (RESULT_OK_CODE, Some(i));
        }
        proof {
            lemma_find_uid_skip(supported@, *riid, i as int);
        }
        i = i + 1;
    }
    (NO_INTERFACE_CODE, None)
}

/// If nothing before `i` matched and position `i` matches, the first
/// match is `i`.
proof fn lemma_find_uid_prefix(s: Seq<UID>, x: UID, i: int)
    requires
        0 <= i < s.len(),
        s[i] == x,
        find_uid(s, x) == -1 || find_uid(s, x) >= i,
    ensures
        find_uid(s, x) == i,
    decreases s.len(),
{
    lemma_find_uid_in_range(s, x);
    if i > 0 {
        assert(s.drop_first()[i - 1] == s[i]);
        lemma_find_uid_in_range(s.drop_first(), x);
        lemma_find_uid_prefix(s.drop_first(), x, i - 1);
    }
}

/// If position `i` does not match, the first match is not `i`.
proof fn lemma_find_uid_skip(s: Seq<UID>, x: UID, i: int)
    requires
        0 <= i < s.len(),
        s[i] != x,
        find_uid(s, x) == -1 || find_uid(s, x) >= i,
    ensures
        find_uid(s, x) == -1 || find_uid(s, x) >= i + 1,
    decreases s.len(),
{
    lemma_find_uid_in_range(s, x);
}

/// How many of a run of operations acquire a reference.
pub open spec fn acquires(ops: Seq<bool>) -> int
    decreases ops.len(),
{
    if ops.len() == 0 {
        0int
    } else {
        (if ops[0] {
            1int
        } else {
            0int
        }) + acquires(ops.drop_first())
    }
}

/// How many of a run of operations release a reference.
pub open spec fn releases(ops: Seq<bool>) -> int
    decreases ops.len(),
{
    if ops.len() == 0 {
        0int
    } else {
        (if ops[0] {
            0int
        } else {
            1int
        }) + releases(ops.drop_first())
    }
}

/// The count after a run of acquisitions (true) and releases (false).
pub open spec fn count_after(start: int, ops: Seq<bool>) -> int {
    start + acquires(ops) - releases(ops)
}

/// Law: handles that acquire one reference each at construction and
/// release exactly one at drop balance out.  However the acquisitions and
/// releases of a run interleave, as long as no prefix releases more than
/// it acquired: a balanced run returns the count to its start, and the
/// count stays at or above its start — in particular above zero — at
/// every step before the end.
pub proof fn lemma_refcount_balanced(start: int, ops: Seq<bool>)
    requires
        start >= 1,
        forall|i: int| 0 <= i <= ops.len() ==> releases(#[trigger] ops.take(i)) <= acquires(
            ops.take(i),
        ),
        acquires(ops) == releases(ops),
    ensures
        count_after(start, ops) == start,
        forall|i: int|
            0 <= i <= ops.len() ==> count_after(start, #[trigger] ops.take(i)) >= start,
{
    assert(ops.take(ops.len() as int) =~= ops);
}

} // verus!
