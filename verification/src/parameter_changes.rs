//! Call-scoped parameter-change queues: the per-call collection the host
//! hands into processing (read) and takes back out (write).  One queue
//! per parameter id, one timestamped point per change, values carried bit
//! for bit.  Nothing here is persisted past the call.

use vstd::prelude::*;

use crate::parameters::{index_of_id, BaseParameter, NormalizedValue, ParameterContainer};
use crate::unknown::ResultErr;

verus! {

/// One change point: when within the block, and the value.
#[derive(Clone, Copy, Debug, PartialEq, Eq, Structural)]
pub struct ParamValuePoint {
    pub sample_offset: i32,
    pub value: NormalizedValue,
}

/// The change points of one parameter within one processing call, in the
/// order the host queued them.
pub struct ParamValueQueue {
    pub id: u32,
    pub points: Vec<ParamValuePoint>,
}

impl ParamValueQueue {
    /// An empty queue for one parameter.
    pub fn new(id: u32) -> (r: Self)
        ensures
            r.id == id,
            r.points@.len() == 0,
    {
        ParamValueQueue { id, points: Vec::new() }
    }

    /// Which parameter this queue belongs to.
    pub fn get_parameter_id(&self) -> (r: u32)
        ensures
            r == self.id,
    {
        self.id
    }

    /// How many points the host queued.
    pub fn get_point_count(&self) -> (r: usize)
        ensures
            r == self.points@.len(),
    {
        self.points.len()
    }

    /// One point by index; an index at or past the count is rejected as
    /// an invalid argument.
    pub fn get_point(&self, index: usize) -> (r: Result<ParamValuePoint, ResultErr>)
        ensures
            index < self.points@.len() ==> r == Ok::<ParamValuePoint, ResultErr>(
                self.points@[index as int],
            ),
            index >= self.points@.len() ==> r == Err::<ParamValuePoint, ResultErr>(
                ResultErr::InvalidArgument,
            ),
    {
        if index < self.points.len() {
            Ok(self.points[index])
        } else {
            Err(ResultErr::InvalidArgument)
        }
    }

    /// The most recently queued point, the one a block-level consumer
    /// applies.
    pub fn last_point(&self) -> (r: Option<ParamValuePoint>)
        ensures
            self.points@.len() > 0 ==> r == Some(self.points@.last()),
            self.points@.len() == 0 ==> r is None,
    {
        if self.points.len() > 0 {
            Some(self.points[self.points.len() - 1])
        } else {
            None
        }
    }

    /// Appends a point, handing back its index.
    pub fn add_point(&mut self, sample_offset: i32, value: NormalizedValue) -> (index: usize)
        requires
            old(self).points@.len() < usize::MAX,
        ensures
            final(self).id == old(self).id,
            final(self).points@ == old(self).points@.push(
                ParamValuePoint { sample_offset, value },
            ),
            index == old(self).points@.len(),
    {
        let index = self.points.len();
        self.points.push(ParamValuePoint { sample_offset, value });
        index
    }
}

/// The first queue belonging to a parameter id, or -1.
pub open spec fn find_queue(s: Seq<ParamValueQueue>, id: u32) -> int
    decreases s.len(),
{
    if s.len() == 0 {
        -1
    } else if s[0].id == id {
        0
    } else if find_queue(s.drop_first(), id) == -1 {
        -1
    } else {
        1 + find_queue(s.drop_first(), id)
    }
}

pub proof fn lemma_find_queue_in_range(s: Seq<ParamValueQueue>, id: u32)
    ensures
        find_queue(s, id) == -1 || (0 <= find_queue(s, id) < s.len() && s[find_queue(s, id)].id
            == id),
    decreases s.len(),
{
    if s.len() > 0 && s[0].id != id {
        lemma_find_queue_in_range(s.drop_first(), id);
    }
}

/// All parameter changes of one processing call: one queue per changed
/// parameter, read queue by queue or extended queue by queue.
pub struct ParameterChanges {
    pub queues: Vec<ParamValueQueue>,
}

impl ParameterChanges {
    /// No changes yet.
    pub fn new() -> (r: Self)
        ensures
            r.queues@.len() == 0,
    {
        ParameterChanges { queues: Vec::new() }
    }

    /// How many parameters have queued changes.
    pub fn get_parameter_count(&self) -> (r: usize)
        ensures
            r == self.queues@.len(),
    {
        self.queues.len()
    }

    /// One queue by index, or nothing for an index at or past the count.
    pub fn get_parameter_data(&self, index: usize) -> (r: Option<&ParamValueQueue>)
        ensures
            index < self.queues@.len() ==> (r matches Some(q) && *q == self.queues@[index as int]),
            index >= self.queues@.len() ==> r is None,
    {
        if index < self.queues.len() {
            Some(&self.queues[index])
        } else {
            None
        }
    }

    /// The queue for a parameter id, created empty at the end if the id
    /// has none yet; hands back its index.
    pub fn add_parameter_data(&mut self, id: u32) -> (index: usize)
        requires
            old(self).queues@.len() < usize::MAX,
        ensures
            ({
                let found = find_queue(old(self).queues@, id);
                if found >= 0 {
                    index == found && final(self).queues@ == old(self).queues@
                } else {
                    &&& index == old(self).queues@.len()
                    &&& final(self).queues@.len() == old(self).queues@.len() + 1
                    &&& forall|j: int|
                        0 <= j < old(self).queues@.len() ==> #[trigger] final(self).queues@[j]
                            == old(self).queues@[j]
                    &&& final(self).queues@[index as int].id == id
                    &&& final(self).queues@[index as int].points@.len() == 0
                }
            }),
    {
        proof {
            lemma_find_queue_in_range(self.queues@, id);
        }
        let mut i: usize = 0;
        while i < self.queues.len()
            invariant
                i <= self.queues@.len(),
                find_queue(self.queues@, id) == -1 || find_queue(self.queues@, id) >= i as int,
            decreases self.queues@.len() - i,
        {
            if self.queues[i].get_parameter_id() == id {
                proof {
                    lemma_find_queue_prefix(self.queues@, id, i as int);
                }
                return i;
            }
            proof {
                lemma_find_queue_skip(self.queues@, id, i as int);
            }
            i = i + 1;
        }
        let index = self.queues.len();
        self.queues.push(ParamValueQueue::new(id));
        index
    }
}

proof fn lemma_find_queue_prefix(s: Seq<ParamValueQueue>, id: u32, i: int)
    requires
        0 <= i < s.len(),
        s[i].id == id,
        find_queue(s, id) == -1 || find_queue(s, id) >= i,
    ensures
        find_queue(s, id) == i,
    decreases s.len(),
{
    lemma_find_queue_in_range(s, id);
    if i > 0 {
        assert(s.drop_first()[i - 1] == s[i]);
        lemma_find_queue_in_range(s.drop_first(), id);
        lemma_find_queue_prefix(s.drop_first(), id, i - 1);
    }
}

proof fn lemma_find_queue_skip(s: Seq<ParamValueQueue>, id: u32, i: int)
    requires
        0 <= i < s.len(),
        s[i].id != id,
        find_queue(s, id) == -1 || find_queue(s, id) >= i,
    ensures
        find_queue(s, id) == -1 || find_queue(s, id) >= i + 1,
    decreases s.len(),
{
    lemma_find_queue_in_range(s, id);
}


/// One queue applied to a parameter list: the last queued point's value
/// stored into the parameter its id names, bit for bit; a queue with no
/// points or an unknown id changes nothing.
pub open spec fn apply_queue_spec(s: Seq<BaseParameter>, q: ParamValueQueue) -> Seq<
    BaseParameter,
> {
    let idx = index_of_id(s, q.id);
    if idx >= 0 && q.points@.len() > 0 {
        s.update(
            idx,
            BaseParameter {
                info: s[idx].info,
                value_normalized: q.points@.last().value,
                precision: s[idx].precision,
            },
        )
    } else {
        s
    }
}

/// Every queue applied in order.
pub open spec fn apply_changes_spec(s: Seq<BaseParameter>, qs: Seq<ParamValueQueue>) -> Seq<
    BaseParameter,
>
    decreases qs.len(),
{
    if qs.len() == 0 {
        s
    } else {
        apply_changes_spec(apply_queue_spec(s, qs[0]), qs.drop_first())
    }
}

proof fn lemma_apply_changes_push(s: Seq<BaseParameter>, qs: Seq<ParamValueQueue>, q: ParamValueQueue)
    ensures
        apply_changes_spec(s, qs.push(q)) == apply_queue_spec(apply_changes_spec(s, qs), q),
    decreases qs.len(),
{
    assert(apply_changes_spec(s, qs.push(q)) == apply_changes_spec(
        apply_queue_spec(s, qs.push(q)[0]),
        qs.push(q).drop_first(),
    ));
    if qs.len() == 0 {
        assert(qs.push(q)[0] == q);
        assert(qs.push(q).drop_first() =~= Seq::<ParamValueQueue>::empty());
        assert(apply_changes_spec(apply_queue_spec(s, q), Seq::<ParamValueQueue>::empty())
            == apply_queue_spec(s, q));
    } else {
        assert(qs.push(q)[0] == qs[0]);
        assert(qs.push(q).drop_first() =~= qs.drop_first().push(q));
        lemma_apply_changes_push(apply_queue_spec(s, qs[0]), qs.drop_first(), q);
        assert(apply_changes_spec(s, qs) == apply_changes_spec(
            apply_queue_spec(s, qs[0]),
            qs.drop_first(),
        ));
    }
}

/// Applies a call's parameter changes to the live parameters, queue by
/// queue in order: for each queue, the last queued point's value is
/// stored into the parameter its id names; queues with no points and
/// unknown ids are passed over.  This is what a processing call does
/// with its incoming changes before it touches any buffer.
pub fn apply_parameter_changes(params: &mut ParameterContainer, changes: &ParameterChanges)
    ensures
        final(params).params@ == apply_changes_spec(old(params).params@, changes.queues@),
{
    proof {
        assert(changes.queues@.take(0) =~= Seq::<ParamValueQueue>::empty());
    }
    let mut i: usize = 0;
    while i < changes.queues.len()
        invariant
            i <= changes.queues@.len(),
            params.params@ == apply_changes_spec(old(params).params@, changes.queues@.take(i as int)),
        decreases changes.queues@.len() - i,
    {
        let q = &changes.queues[i];
        match q.last_point() {
            Some(point) => {
                proof {
                    crate::parameters::lemma_index_of_id_in_range(params.params@, q.id);
                }
                match params.get_parameter_mut(q.get_parameter_id()) {
                    Some(p) => {
                        p.set_normalized(point.value);
                    },
                    None => {},
                }
            },
            None => {},
        }
        i = i + 1;
        proof {
            assert(changes.queues@.take(i as int).drop_last() =~= changes.queues@.take(
                i as int - 1,
            ));
            assert(changes.queues@.take(i as int) =~= changes.queues@.take(i as int - 1).push(
                changes.queues@[i as int - 1],
            ));
            lemma_apply_changes_push(
                old(params).params@,
                changes.queues@.take(i as int - 1),
                changes.queues@[i as int - 1],
            );
        }
    }
    proof {
        assert(changes.queues@.take(changes.queues@.len() as int) =~= changes.queues@);
    }
}

} // verus!
