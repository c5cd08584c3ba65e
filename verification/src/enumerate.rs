use crate::error::Error;
use vstd::prelude::*;

verus! {

/// The driver's answer to a query for one entry of a list: a supported
/// format, a frame size, a frame interval.
#[derive(Debug, Clone, Copy, PartialEq, Eq, Structural)]
pub enum EntryReply {
    /// the list has an entry at the position asked for
    Entry,
    /// the list ends before the position asked for
    End,
    /// the query failed
    Failed,
}

/// What a step of an enumeration came to.
#[derive(Debug, Clone, Copy, PartialEq, Eq, Structural)]
pub enum Step {
    /// the entry at this position belongs to the list
    Yield(u32),
    /// the list has ended
    Finished,
}

/// A walk through one of the driver's lists, entry by entry from position
/// zero, until the driver says that there are no more.
#[derive(Debug, Clone, Copy, PartialEq, Eq, Structural)]
pub struct Cursor {
    position: u32,
    finished: bool,
}

impl Cursor {
    /// The position to ask for next.
    pub closed spec fn position(self) -> u32 {
        self.position
    }

    /// Whether the end of the list was reached.
    pub closed spec fn finished(self) -> bool {
        self.finished
    }

    /// The transition of `advance`.
    pub open spec fn advanced(
        pre: Cursor,
        reply: EntryReply,
        outcome: Result<Step, Error>,
        post: Cursor,
    ) -> bool {
        if pre.finished() {
            outcome == Ok::<Step, Error>(Step::Finished) && post == pre
        } else {
            match reply {
                EntryReply::Entry => {
                    &&& outcome == Ok::<Step, Error>(Step::Yield(pre.position()))
                    &&& post.finished() == (pre.position() == u32::MAX)
                    &&& !post.finished() ==> post.position() == pre.position() + 1
                },
                EntryReply::End => {
                    &&& outcome == Ok::<Step, Error>(Step::Finished)
                    &&& post.finished()
                },
                EntryReply::Failed => {
                    outcome == Err::<Step, Error>(Error::DeviceError) && post == pre
                },
            }
        }
    }

    /// A walk that has not begun: the first position to ask for is zero.
    pub fn new() -> (cursor: Cursor)
        ensures
            cursor.position() == 0,
            !cursor.finished(),
    {
        Cursor { position: 0, finished: false }
    }

    /// The position to ask the driver for, or nothing once the list has
    /// ended.
    pub fn query(&self) -> (position: Option<u32>)
        ensures
            position == if self.finished() {
                None
            } else {
                Some(self.position())
            },
    {
        if self.finished {
            None
        } else {
            Some(self.position)
        }
    }

    /// Takes the driver's answer to the query. An entry is yielded under its
    /// position, and the walk moves on by one. The end of the list is no
    /// error: the walk is finished, and stays so whatever is answered
    /// later. A failed query is a device error and leaves the walk where it
    /// was.
    pub fn advance(&mut self, reply: EntryReply) -> (outcome: Result<Step, Error>)
        ensures
            Self::advanced(*old(self), reply, outcome, *final(self)),
    {
        if self.finished {
            return Ok(Step::Finished);
        }
        match reply {
            EntryReply::Entry => {
                let at = self.position;
                if at == u32::MAX {
                    self.finished = true;
                } else {
                    self.position = at + 1;
                }
                Ok(Step::Yield(at))
            },
            EntryReply::End => {
                self.finished = true;
                Ok(Step::Finished)
            },
            EntryReply::Failed => Err(Error::DeviceError),
        }
    }

    /// Begins the walk anew, from position zero.
    pub fn restart(&mut self)
        ensures
            final(self).position() == 0,
            !final(self).finished(),
    {
        self.position = 0;
        self.finished = false;
    }
}

} // verus!
