use crate::error::Error;
use crate::capture::Format;
use crate::capture::PixFormat;
use vstd::prelude::*;

verus! {

/// Which way the frames of a device flow.
#[derive(Debug, Clone, Copy, PartialEq, Eq, Structural)]
pub enum Direction {
    /// the driver fills buffers, the application reads them
    Capture,
    /// the application fills buffers, the driver drains them
    Output,
}

/// What came of opening a device node.
#[derive(Debug, Clone, Copy, PartialEq, Eq, Structural)]
pub enum NodeReply {
    /// the node does not exist or could not be opened
    Missing,
    /// the node is open and reports these capabilities
    Opened { capture: bool, output: bool },
}

/// The driver's answer to a format command.
#[derive(Debug, Clone, Copy, PartialEq, Eq, Structural)]
pub enum FormatReply {
    /// the format now in effect, which need not be the one submitted
    Accepted(PixFormat),
    /// the command failed
    Rejected,
}

/// An open device and the format that is in effect on it, as far as the
/// driver has told.
#[derive(Debug)]
pub struct Device {
    direction: Direction,
    format: Option<Format>,
}

impl Device {
    /// Which way this device's frames flow.
    pub closed spec fn spec_direction(self) -> Direction {
        self.direction
    }

    /// The format last confirmed by the driver, if any.
    pub closed spec fn spec_format(self) -> Option<Format> {
        self.format
    }

    /// Whether a node with the reply `node` can serve `direction`.
    pub open spec fn serves(node: NodeReply, direction: Direction) -> bool {
        match node {
            NodeReply::Missing => false,
            NodeReply::Opened { capture, output } => match direction {
                Direction::Capture => capture,
                Direction::Output => output,
            },
        }
    }

    /// What a format command with the answer `reply` comes to: the format in
    /// effect, or a device error where the driver refused or answered with
    /// numbers that name no format.
    pub open spec fn negotiated(reply: FormatReply, effective: Result<Format, Error>) -> bool {
        match reply {
            FormatReply::Accepted(raw) if raw.valid() => {
                effective matches Ok(f) && f.spec_into() == raw
            },
            _ => effective == Err::<Format, Error>(Error::DeviceError),
        }
    }

    /// The handle for a node opened for `direction`. Fails with a device
    /// error where the node is missing or lacks the capability.
    pub fn open(direction: Direction, node: NodeReply) -> (opened: Result<Device, Error>)
        ensures
            Self::serves(node, direction) ==> (opened matches Ok(d)
                && d.spec_direction() == direction && d.spec_format().is_none()),
            !Self::serves(node, direction) ==> opened matches Err(Error::DeviceError),
    {
        let able = match node {
            NodeReply::Missing => false,
            NodeReply::Opened { capture, output } => match direction {
                Direction::Capture => capture,
                Direction::Output => output,
            },
        };
        if able {
            Ok(Device { direction, format: None })
        } else {
            Err(Error::DeviceError)
        }
    }

    /// Which way this device's frames flow.
    pub fn direction(&self) -> (direction: Direction)
        ensures
            direction == self.spec_direction(),
    {
        self.direction
    }

    /// The format last confirmed by the driver, if any.
    pub fn format(&self) -> (format: Option<Format>)
        ensures
            format == self.spec_format(),
    {
        self.format
    }

    /// Takes the driver's answer to a query of the format in effect. The
    /// format is returned and remembered; on failure nothing changes.
    pub fn get_format(&mut self, reply: FormatReply) -> (effective: Result<Format, Error>)
        ensures
            Self::negotiated(reply, effective),
            final(self).spec_direction() == old(self).spec_direction(),
            effective matches Ok(f) ==> final(self).spec_format() == Some(f),
            effective is Err ==> *final(self) == *old(self),
    {
        self.record(reply)
    }

    /// Takes the driver's answer to a submitted format. What is returned and
    /// remembered is the format that the driver put into effect, never the
    /// one submitted; on failure nothing changes.
    pub fn set_format(&mut self, reply: FormatReply) -> (effective: Result<Format, Error>)
        ensures
            Self::negotiated(reply, effective),
            final(self).spec_direction() == old(self).spec_direction(),
            effective matches Ok(f) ==> final(self).spec_format() == Some(f),
            effective is Err ==> *final(self) == *old(self),
    {
        self.record(reply)
    }

    fn record(&mut self, reply: FormatReply) -> (effective: Result<Format, Error>)
        ensures
            Self::negotiated(reply, effective),
            final(self).direction == old(self).direction,
            effective matches Ok(f) ==> final(self).format == Some(f),
            effective is Err ==> *final(self) == *old(self),
    {
        match reply {
            FormatReply::Accepted(raw) => match Format::try_from(raw) {
                Some(f) => {
                    self.format = Some(f);
                    Ok(f)
                },
                None => Err(Error::DeviceError),
            },
            FormatReply::Rejected => Err(Error::DeviceError),
        }
    }

    /// The driver confirms what it has put into effect: submitted a format
    /// that it answered with before, it answers with that format again.
    pub open spec fn settles(driver: spec_fn(PixFormat) -> FormatReply) -> bool {
        forall|raw: PixFormat|
            (#[trigger] driver(raw)) matches FormatReply::Accepted(effective) ==> driver(effective)
                == FormatReply::Accepted(effective)
    }

    /// Negotiation is idempotent: with a driver that confirms what it has
    /// put into effect, submitting the effective format again yields the
    /// same effective format as the first submission.
    pub proof fn negotiation_is_idempotent(
        driver: spec_fn(PixFormat) -> FormatReply,
        requested: Format,
        once: Format,
        twice: Result<Format, Error>,
    )
        requires
            Self::settles(driver),
            Self::negotiated(driver(requested.spec_into()), Ok(once)),
            Self::negotiated(driver(once.spec_into()), twice),
        ensures
            twice == Ok::<Format, Error>(once),
    {
        let first = driver(requested.spec_into());
        assert(first == FormatReply::Accepted(once.spec_into()));
        assert(driver(once.spec_into()) == FormatReply::Accepted(once.spec_into()));
        Format::into_is_valid(once);
        match twice {
            Ok(again) => {
                Format::into_is_injective(again, once);
            },
            Err(_) => {},
        }
    }

    /// A query agrees with the submission before it: where the driver
    /// reports to both the same numbers, both return the same format.
    pub proof fn query_agrees_with_submission(
        reply: FormatReply,
        set: Result<Format, Error>,
        got: Result<Format, Error>,
    )
        requires
            Self::negotiated(reply, set),
            Self::negotiated(reply, got),
        ensures
            set == got,
    {
        match (set, got) {
            (Ok(f), Ok(g)) => {
                Format::into_is_injective(f, g);
            },
            _ => {},
        }
    }
}

} // verus!
