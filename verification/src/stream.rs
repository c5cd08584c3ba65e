use crate::device::Device;
use crate::device::Direction;
use crate::device::FormatReply;
use crate::error::Error;
use crate::capture::Format;
use crate::pool::first_indices;
use crate::pool::uniform;
use crate::pool::BufferDescriptor;
use crate::pool::BufferPool;
use crate::pool::BufferState;
use vstd::prelude::*;

verus! {

/// When the driver finished a buffer.
#[derive(Debug, Clone, Copy, PartialEq, Eq, Structural)]
pub struct Timestamp {
    /// seconds
    pub sec: i64,
    /// microseconds
    pub usec: i64,
}

/// What the driver tells of a buffer that it hands back.
#[derive(Debug, Clone, Copy, PartialEq, Eq)]
pub struct FrameMeta {
    /// the slot handed back
    pub index: u32,
    /// bytes of the slot that hold data
    pub bytes_used: u32,
    /// the frame's number in the stream
    pub sequence: u32,
    /// when the frame was finished, if the driver says
    pub timestamp: Option<Timestamp>,
}

/// The driver's answer to a wait for a finished buffer.
#[derive(Debug, Clone, Copy, PartialEq, Eq)]
pub enum DequeueReply {
    /// a buffer was handed back
    Filled(FrameMeta),
    /// the driver reported an I/O error
    Failed,
}

/// A window onto one buffer that the application holds: where its bytes lie
/// and what the driver told of them. It is good until the next frame is
/// asked for or the buffer is queued again.
#[derive(Debug, Clone, Copy, PartialEq, Eq)]
pub struct Frame {
    /// the buffer looked at
    pub buffer: BufferDescriptor,
    /// bytes of the buffer that hold data
    pub bytes_used: u32,
    /// the frame's number in the stream
    pub sequence: u32,
    /// when the frame was finished, if the driver says
    pub timestamp: Option<Timestamp>,
}

/// What is left to do when a session ends.
#[derive(Debug, PartialEq, Eq)]
pub struct Teardown {
    /// whether streaming is still on and must be switched off first
    pub stream_off: bool,
    /// the slots to unmap: every slot of the pool, in rising order; after
    /// that the driver's buffer set is to be released
    pub unmap: Vec<u32>,
}

/// A device with its buffer pool, streaming or stopped.
#[derive(Debug)]
pub struct Session {
    device: Device,
    pool: BufferPool,
    streaming: bool,
    held: Option<u32>,
}

impl Session {
    /// The device streamed from or to.
    pub closed spec fn device(&self) -> Device {
        self.device
    }

    /// The buffers.
    pub closed spec fn pool(&self) -> BufferPool {
        self.pool
    }

    /// Whether streaming is on.
    pub closed spec fn streaming(&self) -> bool {
        self.streaming
    }

    /// The slot under the frame that was returned last, while the
    /// application still holds it.
    pub closed spec fn held(&self) -> Option<u32> {
        self.held
    }

    /// The present holder of each slot.
    pub open spec fn states(&self) -> Seq<BufferState> {
        self.pool().states()
    }

    /// The number of buffers.
    pub open spec fn count(&self) -> nat {
        self.pool().descriptors().len()
    }

    /// What holds of a session at all times. While stopped, every buffer is
    /// `Idle`: none is with the driver. While streaming, none is `Idle`. The
    /// slot of the last frame is `Dequeued`, and on a capture device it is
    /// the only one that is.
    pub open spec fn wf(&self) -> bool {
        &&& self.pool().wf()
        &&& !self.streaming() ==> self.states() == uniform(self.count(), BufferState::Idle)
            && self.held() is None
        &&& self.streaming() ==> forall|i: int|
            0 <= i < self.count() ==> !((#[trigger] self.states()[i]) is Idle)
        &&& self.held() matches Some(h) ==> h < self.count() && self.states()[h as int] is Dequeued
        &&& self.device().spec_direction() is Capture ==> forall|i: int|
            0 <= i < self.count() && (#[trigger] self.states()[i]) is Dequeued ==> self.held()
                == Some(i as u32)
    }

    /// Device and descriptors of `post` are those of `pre`: what every
    /// transition leaves alone.
    pub open spec fn same_pool(pre: Session, post: Session) -> bool {
        &&& post.device() == pre.device()
        &&& post.pool().descriptors() == pre.pool().descriptors()
    }

    /// The slot that is handed back to the driver before the next frame is
    /// waited for: on a capture device the slot of the last frame.
    pub open spec fn to_requeue(&self) -> Option<u32> {
        if self.device().spec_direction() is Capture {
            self.held()
        } else {
            None
        }
    }

    /// The holders once `to_requeue` is with the driver again.
    pub open spec fn released_states(&self) -> Seq<BufferState> {
        match self.to_requeue() {
            Some(h) => self.states().update(h as int, BufferState::Queued),
            None => self.states(),
        }
    }

    /// The slot of the last frame once `to_requeue` is with the driver again.
    pub open spec fn released_held(&self) -> Option<u32> {
        if self.device().spec_direction() is Capture {
            None
        } else {
            self.held()
        }
    }

    /// The reply hands back a slot of the pool that was with the driver.
    pub open spec fn hands_back(&self, reply: DequeueReply) -> bool {
        reply matches DequeueReply::Filled(meta) && meta.index < self.count()
            && self.released_states()[meta.index as int] is Queued
    }

    /// The frame that `meta` announces.
    pub open spec fn frame_of(&self, meta: FrameMeta) -> Frame {
        Frame {
            buffer: self.pool().descriptors()[meta.index as int],
            bytes_used: meta.bytes_used,
            sequence: meta.sequence,
            timestamp: meta.timestamp,
        }
    }

    /// Slot `index` can be queued: streaming is on and the application holds
    /// the slot as `Dequeued`.
    pub open spec fn can_queue(&self, index: u32) -> bool {
        self.streaming() && index < self.count() && self.states()[index as int] is Dequeued
    }

    /// The transition of `start`.
    pub open spec fn started(
        pre: Session,
        accepted: bool,
        outcome: Result<(), Error>,
        post: Session,
    ) -> bool {
        if !pre.streaming() && accepted {
            &&& outcome is Ok
            &&& Self::same_pool(pre, post)
            &&& post.streaming()
            &&& post.states() == uniform(pre.count(), BufferState::Queued)
            &&& post.held() is None
        } else {
            outcome == Err::<(), Error>(Error::DeviceError) && post == pre
        }
    }

    /// The transition of `next_frame`.
    pub open spec fn advanced(
        pre: Session,
        reply: DequeueReply,
        outcome: Result<Frame, Error>,
        post: Session,
    ) -> bool {
        if !pre.streaming() {
            outcome == Err::<Frame, Error>(Error::ProtocolViolation) && post == pre
        } else if pre.hands_back(reply) {
            let meta = reply->Filled_0;
            &&& outcome == Ok::<Frame, Error>(pre.frame_of(meta))
            &&& Self::same_pool(pre, post)
            &&& post.streaming()
            &&& post.states() == pre.released_states().update(
                meta.index as int,
                BufferState::Dequeued,
            )
            &&& post.held() == Some(meta.index)
        } else {
            &&& outcome == Err::<Frame, Error>(Error::DeviceError)
            &&& Self::same_pool(pre, post)
            &&& post.streaming()
            &&& post.states() == pre.released_states()
            &&& post.held() == pre.released_held()
        }
    }

    /// The transition of `queue`.
    pub open spec fn queued(
        pre: Session,
        index: u32,
        accepted: bool,
        outcome: Result<(), Error>,
        post: Session,
    ) -> bool {
        if !pre.can_queue(index) {
            outcome == Err::<(), Error>(Error::ProtocolViolation) && post == pre
        } else if !accepted {
            outcome == Err::<(), Error>(Error::IoError) && post == pre
        } else {
            &&& outcome is Ok
            &&& Self::same_pool(pre, post)
            &&& post.streaming()
            &&& post.states() == pre.states().update(index as int, BufferState::Queued)
            &&& post.held() == if pre.held() == Some(index) {
                None
            } else {
                pre.held()
            }
        }
    }

    /// The transition of `stop`.
    pub open spec fn stopped(pre: Session, was_streaming: bool, post: Session) -> bool {
        &&& was_streaming == pre.streaming()
        &&& Self::same_pool(pre, post)
        &&& !post.streaming()
        &&& post.states() == uniform(pre.count(), BufferState::Idle)
        &&& post.held() is None
    }

    /// A stopped session over `device` and `pool`, every buffer `Idle`.
    pub fn new(device: Device, pool: BufferPool) -> (session: Session)
        requires
            pool.wf(),
        ensures
            session.wf(),
            session.device() == device,
            session.pool().descriptors() == pool.descriptors(),
            session.states() == uniform(session.count(), BufferState::Idle),
            !session.streaming(),
            session.held() is None,
    {
        let mut pool = pool;
        pool.fill(BufferState::Idle);
        Session { device, pool, streaming: false, held: None }
    }

    /// Which way the frames flow.
    pub fn direction(&self) -> (direction: Direction)
        ensures
            direction == self.device().spec_direction(),
    {
        self.device.direction()
    }

    /// The format last confirmed by the driver, if any.
    pub fn format(&self) -> (format: Option<Format>)
        ensures
            format == self.device().spec_format(),
    {
        self.device.format()
    }

    /// Takes the driver's answer to a query of the format in effect, as the
    /// device does. Buffers and streaming are left alone.
    pub fn get_format(&mut self, reply: FormatReply) -> (effective: Result<Format, Error>)
        requires
            old(self).wf(),
        ensures
            final(self).wf(),
            Device::negotiated(reply, effective),
            final(self).pool() == old(self).pool(),
            final(self).streaming() == old(self).streaming(),
            final(self).held() == old(self).held(),
            final(self).device().spec_direction() == old(self).device().spec_direction(),
            effective matches Ok(f) ==> final(self).device().spec_format() == Some(f),
            effective is Err ==> *final(self) == *old(self),
    {
        self.device.get_format(reply)
    }

    /// Whether streaming is on.
    pub fn is_streaming(&self) -> (on: bool)
        ensures
            on == self.streaming(),
    {
        self.streaming
    }

    /// The number of buffers.
    pub fn len(&self) -> (n: usize)
        ensures
            n == self.count(),
    {
        self.pool.len()
    }

    /// The present holder of slot `index`, if the pool has such a slot.
    pub fn state(&self, index: u32) -> (found: Option<BufferState>)
        ensures
            found == if index < self.states().len() {
                Some(self.states()[index as int])
            } else {
                None
            },
    {
        self.pool.state(index)
    }

    /// The slot under the frame that was returned last, while the
    /// application still holds it.
    pub fn current(&self) -> (slot: Option<u32>)
        ensures
            slot == self.held(),
    {
        self.held
    }

    /// The error that meets an attempt to change the format while the pool
    /// exists: a device error while streaming, else a protocol violation,
    /// since the size of the buffers is fixed when the pool is built.
    pub fn refuse_format(&self) -> (error: Error)
        ensures
            error == if self.streaming() {
                Error::DeviceError
            } else {
                Error::ProtocolViolation
            },
    {
        if self.streaming {
            Error::DeviceError
        } else {
            Error::ProtocolViolation
        }
    }

    /// The slots to hand to the driver before the command that starts
    /// streaming: every slot, all of them `Idle`. A device error if
    /// streaming is on already.
    pub fn start_plan(&self) -> (plan: Result<Vec<u32>, Error>)
        requires
            self.wf(),
        ensures
            self.streaming() ==> plan matches Err(Error::DeviceError),
            !self.streaming() ==> (plan matches Ok(slots) && slots@ == first_indices(self.count())),
    {
        if self.streaming {
            Err(Error::DeviceError)
        } else {
            Ok(self.pool.indices())
        }
    }

    /// Takes the driver's answer to the command that starts streaming. Where
    /// it `accepted`, every buffer is `Queued` and streaming is on. Where it
    /// did not, or streaming was on already, the call fails with a device
    /// error and nothing changes: the buffers stay `Idle`.
    pub fn start(&mut self, accepted: bool) -> (outcome: Result<(), Error>)
        requires
            old(self).wf(),
        ensures
            final(self).wf(),
            Self::started(*old(self), accepted, outcome, *final(self)),
    {
        if self.streaming || !accepted {
            return Err(Error::DeviceError);
        }
        self.pool.fill(BufferState::Queued);
        self.streaming = true;
        Ok(())
    }

    /// What to do before waiting for the next frame: the slot to hand back
    /// to the driver first, if any. A protocol violation if streaming is
    /// off, so that nobody waits for a frame that cannot come.
    pub fn next_plan(&self) -> (plan: Result<Option<u32>, Error>)
        requires
            self.wf(),
        ensures
            !self.streaming() ==> plan matches Err(Error::ProtocolViolation),
            self.streaming() ==> plan == Ok::<Option<u32>, Error>(self.to_requeue()),
    {
        if !self.streaming {
            return Err(Error::ProtocolViolation);
        }
        match self.device.direction() {
            Direction::Capture => Ok(self.held),
            Direction::Output => Ok(None),
        }
    }

    /// Takes the driver's answer to the wait for a finished buffer. The slot
    /// named by `next_plan` counts as `Queued` again. A reply that hands
    /// back a queued slot of the pool makes that slot `Dequeued` and returns
    /// the frame over it. A reported failure, or a slot that the driver did
    /// not hold, is a device error; the caller may ask again. With streaming
    /// off the call is a protocol violation and nothing changes.
    pub fn next_frame(&mut self, reply: DequeueReply) -> (outcome: Result<Frame, Error>)
        requires
            old(self).wf(),
        ensures
            final(self).wf(),
            Self::advanced(*old(self), reply, outcome, *final(self)),
    {
        if !self.streaming {
            return Err(Error::ProtocolViolation);
        }
        match self.device.direction() {
            Direction::Capture => {
                match self.held {
                    Some(h) => {
                        self.pool.set_state(h as usize, BufferState::Queued);
                    },
                    None => {},
                }
                self.held = None;
            },
            Direction::Output => {},
        }
        let meta = match reply {
            DequeueReply::Filled(meta) => meta,
            DequeueReply::Failed => {
                return Err(Error::DeviceError);
            },
        };
        match self.pool.state(meta.index) {
            Some(BufferState::Queued) => {},
            _ => {
                return Err(Error::DeviceError);
            },
        }
        let buffer = self.pool.descriptor(meta.index).unwrap();
        self.pool.set_state(meta.index as usize, BufferState::Dequeued);
        self.held = Some(meta.index);
        Ok(
            Frame {
                buffer,
                bytes_used: meta.bytes_used,
                sequence: meta.sequence,
                timestamp: meta.timestamp,
            },
        )
    }

    /// Whether slot `index` may be handed to the driver now: a protocol
    /// violation unless streaming is on and the slot is `Dequeued`.
    pub fn queue_plan(&self, index: u32) -> (verdict: Result<(), Error>)
        requires
            self.wf(),
        ensures
            self.can_queue(index) ==> verdict is Ok,
            !self.can_queue(index) ==> verdict matches Err(Error::ProtocolViolation),
    {
        if !self.streaming {
            return Err(Error::ProtocolViolation);
        }
        match self.pool.state(index) {
            Some(BufferState::Dequeued) => Ok(()),
            _ => Err(Error::ProtocolViolation),
        }
    }

    /// Takes the driver's answer to handing it slot `index`. Where it
    /// `accepted`, the slot is `Queued`. Where it did not, the call fails
    /// with an I/O error and the application keeps the slot, so that it may
    /// try again. A slot that `queue_plan` refuses is a protocol violation
    /// here too, and nothing changes.
    pub fn queue(&mut self, index: u32, accepted: bool) -> (outcome: Result<(), Error>)
        requires
            old(self).wf(),
        ensures
            final(self).wf(),
            Self::queued(*old(self), index, accepted, outcome, *final(self)),
    {
        match self.queue_plan(index) {
            Ok(()) => {},
            Err(e) => {
                return Err(e);
            },
        }
        if !accepted {
            return Err(Error::IoError);
        }
        self.pool.set_state(index as usize, BufferState::Queued);
        match self.held {
            Some(h) => {
                if h == index {
                    self.held = None;
                }
            },
            None => {},
        }
        Ok(())
    }

    /// Stops streaming: the driver gives up every buffer, and every buffer
    /// is `Idle` again. Returns whether streaming was on, that is whether
    /// the device has to be told; on a stopped session nothing changes.
    pub fn stop(&mut self) -> (was_streaming: bool)
        requires
            old(self).wf(),
        ensures
            final(self).wf(),
            Self::stopped(*old(self), was_streaming, *final(self)),
            !old(self).streaming() ==> *final(self) == *old(self),
    {
        let was_streaming = self.streaming;
        if was_streaming {
            self.pool.fill(BufferState::Idle);
            self.streaming = false;
            self.held = None;
        }
        was_streaming
    }

    /// Ends the session, streaming or not: the device is handed back, and
    /// the teardown names every slot of the pool for unmapping. The session
    /// is used up, and no frame of it can be asked for again.
    pub fn close(self) -> (end: (Device, Teardown))
        requires
            self.wf(),
        ensures
            end.0 == self.device(),
            end.1.stream_off == self.streaming(),
            end.1.unmap@ == first_indices(self.count()),
    {
        let Session { device, pool, streaming, held: _ } = self;
        let unmap = pool.indices();
        (device, Teardown { stream_off: streaming, unmap })
    }

    /// Every slot has exactly one holder, the driver or the application,
    /// and the frame returned last lies over a slot that the application
    /// holds.
    pub proof fn ownership_is_a_partition(&self)
        requires
            self.wf(),
        ensures
            self.pool().driver_owned().disjoint(self.pool().application_owned()),
            self.pool().driver_owned().union(self.pool().application_owned()) == Set::new(
                |i: int| 0 <= i < self.count(),
            ),
            self.held() matches Some(h) ==> self.pool().application_owned().contains(h as int),
    {
        self.pool().ownership_is_a_partition();
    }

    /// A stopped session leaves nothing with the driver: no buffer is
    /// `Queued` unless streaming is on.
    pub proof fn nothing_queued_while_stopped(&self)
        requires
            self.wf(),
            !self.streaming(),
        ensures
            self.pool().driver_owned() == Set::<int>::empty(),
    {
        assert(self.pool().driver_owned() =~= Set::<int>::empty());
    }

    /// After `stop`, `start` streams again over the same pool: every buffer
    /// is first `Idle`, then `Queued`.
    pub proof fn restart_streams_again(
        running: Session,
        was_streaming: bool,
        rested: Session,
        outcome: Result<(), Error>,
        restarted: Session,
    )
        requires
            running.wf(),
            Self::stopped(running, was_streaming, rested),
            Self::started(rested, true, outcome, restarted),
        ensures
            rested.states() == uniform(running.count(), BufferState::Idle),
            outcome is Ok,
            restarted.streaming(),
            Self::same_pool(running, restarted),
            restarted.states() == uniform(running.count(), BufferState::Queued),
    {
    }

    /// While streaming on a capture device, the driver holds every buffer
    /// but the one under the frame returned last.
    pub proof fn capture_keeps_the_rest_queued(&self, i: int)
        requires
            self.wf(),
            self.streaming(),
            self.device().spec_direction() is Capture,
            0 <= i < self.count(),
        ensures
            self.held() == Some(i as u32) ==> self.states()[i] is Dequeued,
            self.held() != Some(i as u32) ==> self.states()[i] is Queued,
    {
    }
}

} // verus!
