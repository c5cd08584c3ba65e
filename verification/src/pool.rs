use crate::error::Error;
use vstd::prelude::*;

verus! {

/// Who holds a buffer. The application holds it while it is `Idle` or
/// `Dequeued`, the driver while it is `Queued`.
#[derive(Debug, Clone, Copy, PartialEq, Eq, Structural)]
pub enum BufferState {
    /// mapped, and not handed to the driver since streaming last stopped
    Idle,
    /// handed to the driver, which may read or write it at any time
    Queued,
    /// handed back by the driver; the application may look at it
    Dequeued,
}

/// One slot of the driver's buffer set: where it lies in the device's
/// memory and how long it is.
#[derive(Debug, Clone, Copy, PartialEq, Eq, Structural)]
pub struct BufferDescriptor {
    /// the slot's number, counted from zero
    pub index: u32,
    /// where the slot starts in the device's memory
    pub memory_offset: usize,
    /// bytes in the slot
    pub length: usize,
}

/// What came of querying one slot and mapping it.
#[derive(Debug, Clone, Copy, PartialEq, Eq, Structural)]
pub enum MapReply {
    /// the slot is mapped
    Mapped { memory_offset: usize, length: usize },
    /// the query or the mapping failed
    Failed,
}

/// What is left to undo after a pool could not be built.
#[derive(Debug, PartialEq, Eq)]
pub struct Rollback {
    /// why the pool could not be built
    pub error: Error,
    /// the slots that were mapped and must be unmapped again, in rising
    /// order; after that the driver's buffer set is to be released
    pub unmap: Vec<u32>,
}

/// The buffers negotiated with the driver, each with its place in memory and
/// its present holder.
#[derive(Debug, PartialEq, Eq)]
pub struct BufferPool {
    descriptors: Vec<BufferDescriptor>,
    states: Vec<BufferState>,
}

/// The positions of the replies that report a mapping, in rising order.
pub open spec fn mapped_indices(replies: Seq<MapReply>) -> Seq<u32>
    decreases replies.len(),
{
    if replies.len() == 0 {
        Seq::empty()
    } else {
        let before = mapped_indices(replies.drop_last());
        if replies.last() is Mapped {
            before.push((replies.len() - 1) as u32)
        } else {
            before
        }
    }
}

/// Every reply reports a mapping.
pub open spec fn all_mapped(replies: Seq<MapReply>) -> bool {
    forall|i: int| 0 <= i < replies.len() ==> (#[trigger] replies[i]) is Mapped
}

/// The descriptors that the replies give, slot by slot.
pub open spec fn described(replies: Seq<MapReply>) -> Seq<BufferDescriptor> {
    Seq::new(
        replies.len(),
        |i: int|
            BufferDescriptor {
                index: i as u32,
                memory_offset: replies[i]->memory_offset,
                length: replies[i]->length,
            },
    )
}

/// The numbers `0` to `n - 1`.
pub open spec fn first_indices(n: nat) -> Seq<u32> {
    Seq::new(n, |i: int| i as u32)
}

/// `n` buffers, all in the state `state`.
pub open spec fn uniform(n: nat, state: BufferState) -> Seq<BufferState> {
    Seq::new(n, |i: int| state)
}

/// A pool can be built: the driver granted at least one buffer, and each
/// granted slot was mapped.
pub open spec fn constructible(granted: u32, replies: Seq<MapReply>) -> bool {
    granted > 0 && replies.len() == granted && all_mapped(replies)
}

impl BufferPool {
    /// The descriptors, slot by slot.
    pub closed spec fn descriptors(&self) -> Seq<BufferDescriptor> {
        self.descriptors@
    }

    /// The present holder of each slot.
    pub closed spec fn states(&self) -> Seq<BufferState> {
        self.states@
    }

    /// The pool is not empty, every slot has a state, slot numbers fit the
    /// kernel interface, and each descriptor carries its own position.
    pub open spec fn wf(&self) -> bool {
        &&& 0 < self.descriptors().len() <= u32::MAX
        &&& self.states().len() == self.descriptors().len()
        &&& forall|i: int|
            0 <= i < self.descriptors().len() ==> (#[trigger] self.descriptors()[i]).index == i
    }

    /// The slots that the driver holds.
    pub open spec fn driver_owned(&self) -> Set<int> {
        Set::new(|i: int| 0 <= i < self.states().len() && self.states()[i] is Queued)
    }

    /// The slots that the application holds.
    pub open spec fn application_owned(&self) -> Set<int> {
        Set::new(
            |i: int|
                0 <= i < self.states().len() && (self.states()[i] is Idle
                    || self.states()[i] is Dequeued),
        )
    }

    /// Builds the pool from what the driver answered: `granted` is the
    /// number of buffers it allotted when asked for `requested`, and
    /// `replies` holds, slot by slot, what came of mapping them. The pool
    /// takes the driver's number, whatever was asked for, with every buffer
    /// `Idle`. Where nothing was granted or a slot is not mapped, no pool
    /// comes to be, and the rollback names every slot that was mapped.
    pub fn with_buffers(
        requested: u32,
        granted: u32,
        replies: Vec<MapReply>,
    ) -> (built: Result<BufferPool, Rollback>)
        requires
            replies.len() <= u32::MAX,
        ensures
            built is Ok <==> constructible(granted, replies@),
            built matches Ok(pool) ==> {
                &&& pool.wf()
                &&& pool.descriptors() == described(replies@)
                &&& pool.states() == uniform(granted as nat, BufferState::Idle)
                &&& 0 < pool.descriptors().len() == granted
                &&& granted <= requested ==> pool.descriptors().len() <= requested
            },
            built matches Err(rollback) ==> {
                &&& rollback.error == Error::ResourceError
                &&& rollback.unmap@ == mapped_indices(replies@)
            },
    {
        let mut descriptors: Vec<BufferDescriptor> = Vec::new();
        let mut states: Vec<BufferState> = Vec::new();
        let mut unmap: Vec<u32> = Vec::new();
        let mut whole = true;
        let mut i: usize = 0;
        proof {
            assert(replies@.take(0) =~= Seq::<MapReply>::empty());
        }
        while i < replies.len()
            invariant
                i <= replies.len() <= u32::MAX,
                unmap@ == mapped_indices(replies@.take(i as int)),
                whole <==> all_mapped(replies@.take(i as int)),
                whole ==> descriptors@ =~= described(replies@.take(i as int)),
                whole ==> states@ =~= uniform(i as nat, BufferState::Idle),
            decreases replies.len() - i,
        {
            proof {
                let next = replies@.take(i + 1);
                assert(next.drop_last() =~= replies@.take(i as int));
                assert(next.last() == replies@[i as int]);
                assert(all_mapped(next) <==> (all_mapped(replies@.take(i as int))
                    && replies@[i as int] is Mapped)) by {
                    if all_mapped(next) {
                        assert(next[i as int] is Mapped);
                        assert forall|j: int| 0 <= j < i implies (#[trigger] replies@.take(
                            i as int,
                        )[j]) is Mapped by {
                            assert(next[j] is Mapped);
                        }
                    }
                    if all_mapped(replies@.take(i as int)) && replies@[i as int] is Mapped {
                        assert forall|j: int| 0 <= j < i + 1 implies (#[trigger] next[j]) is Mapped by {
                            if j < i {
                                assert(replies@.take(i as int)[j] is Mapped);
                            }
                        }
                    }
                }
            }
            match replies[i] {
                MapReply::Mapped { memory_offset, length } => {
                    unmap.push(i as u32);
                    if whole {
                        descriptors.push(BufferDescriptor { index: i as u32, memory_offset, length });
                        states.push(BufferState::Idle);
                    }
                },
                MapReply::Failed => {
                    whole = false;
                },
            }
            i += 1;
        }
        proof {
            assert(replies@.take(i as int) =~= replies@);
        }
        if whole && granted > 0 && replies.len() == granted as usize {
            Ok(BufferPool { descriptors, states })
        } else {
            Err(Rollback { error: Error::ResourceError, unmap })
        }
    }

    /// The number of buffers: what the driver granted.
    pub fn len(&self) -> (n: usize)
        ensures
            n == self.descriptors().len(),
    {
        self.descriptors.len()
    }

    /// The descriptor of slot `index`, if the pool has such a slot.
    pub fn descriptor(&self, index: u32) -> (found: Option<BufferDescriptor>)
        ensures
            found == if index < self.descriptors().len() {
                Some(self.descriptors()[index as int])
            } else {
                None
            },
    {
        if (index as usize) < self.descriptors.len() {
            Some(self.descriptors[index as usize])
        } else {
            None
        }
    }

    /// The present holder of slot `index`, if the pool has such a slot.
    pub fn state(&self, index: u32) -> (found: Option<BufferState>)
        ensures
            found == if index < self.states().len() {
                Some(self.states()[index as int])
            } else {
                None
            },
    {
        if (index as usize) < self.states.len() {
            Some(self.states[index as usize])
        } else {
            None
        }
    }

    /// The number of every slot, in rising order.
    pub fn indices(&self) -> (all: Vec<u32>)
        requires
            self.wf(),
        ensures
            all@ == first_indices(self.descriptors().len()),
    {
        let mut all: Vec<u32> = Vec::new();
        let mut i: usize = 0;
        while i < self.descriptors.len()
            invariant
                i <= self.descriptors@.len() <= u32::MAX,
                all@ =~= first_indices(i as nat),
            decreases self.descriptors@.len() - i,
        {
            all.push(i as u32);
            i += 1;
        }
        all
    }

    /// Hands slot `index` to `state`.
    pub(crate) fn set_state(&mut self, index: usize, state: BufferState)
        requires
            old(self).wf(),
            index < old(self).states().len(),
        ensures
            final(self).wf(),
            final(self).descriptors() == old(self).descriptors(),
            final(self).states() == old(self).states().update(index as int, state),
    {
        self.states[index] = state;
    }

    /// Hands every slot to `state`.
    pub(crate) fn fill(&mut self, state: BufferState)
        requires
            old(self).wf(),
        ensures
            final(self).wf(),
            final(self).descriptors() == old(self).descriptors(),
            final(self).states() == uniform(old(self).states().len(), state),
    {
        let n = self.states.len();
        let mut i: usize = 0;
        while i < n
            invariant
                i <= n,
                n == self.states@.len(),
                self.descriptors@ == old(self).descriptors@,
                self.states@.len() == old(self).states@.len(),
                forall|j: int| 0 <= j < i ==> self.states@[j] == state,
            decreases n - i,
        {
            self.states[i] = state;
            i += 1;
        }
        proof {
            assert(self.states@ =~= uniform(n as nat, state));
        }
    }

    /// Every slot has exactly one holder: the driver's slots and the
    /// application's are disjoint, and together they are all the slots.
    pub proof fn ownership_is_a_partition(&self)
        ensures
            self.driver_owned().disjoint(self.application_owned()),
            self.driver_owned().union(self.application_owned()) == Set::new(
                |i: int| 0 <= i < self.states().len(),
            ),
    {
        assert(self.driver_owned().union(self.application_owned()) =~= Set::new(
            |i: int| 0 <= i < self.states().len(),
        ));
    }
}

} // verus!
