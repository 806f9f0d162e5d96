//! Bookkeeping of one relay session: two independent copy directions, their
//! byte counters, half-close propagation and teardown on error.

use vstd::prelude::*;

verus! {

/// One of the two copy directions of a session.
#[derive(Clone, Copy, Debug, PartialEq, Eq, Structural)]
pub enum Direction {
    InboundToOutbound,
    OutboundToInbound,
}

/// What a copy direction reports.
#[derive(Clone, Copy, Debug, PartialEq, Eq, Structural)]
pub enum RelayEvent {
    /// This many bytes were read on one side and written to the other.
    Copied(Direction, u64),
    /// The reading side of the direction reached end-of-stream.
    EndOfStream(Direction),
    /// A read or a write of the direction failed.
    IoError(Direction),
}

/// What the session asks of the two connections after an event.
#[derive(Clone, Copy, Debug, PartialEq, Eq, Structural)]
pub enum RelayAction {
    /// Keep copying.
    Continue,
    /// Close the write side of the connection that the direction writes to,
    /// and let the opposite direction drain.
    HalfClose(Direction),
    /// Close both connections: the session is over.
    CloseBoth,
}

/// Why a dispatch did not complete.
#[derive(Clone, Copy, Debug, PartialEq, Eq, Structural)]
pub enum DispatchError {
    OutboundConnectFailed,
    RelayIoError,
}

/// The state of one relay session.
#[derive(Clone, Copy, Debug, PartialEq, Eq, Structural)]
pub struct RelaySession {
    /// The inbound-to-outbound direction is still copying.
    pub up_open: bool,
    /// The outbound-to-inbound direction is still copying.
    pub down_open: bool,
    /// A direction met an I/O error.
    pub failed: bool,
    /// Bytes copied inbound-to-outbound, saturating at the largest value.
    pub bytes_up: u64,
    /// Bytes copied outbound-to-inbound, saturating at the largest value.
    pub bytes_down: u64,
}

/// The sum of two counters, held at the largest value a counter can take.
pub open spec fn saturating_sum(a: u64, b: u64) -> u64 {
    if a + b > u64::MAX {
        u64::MAX
    } else {
        (a + b) as u64
    }
}

impl RelaySession {
    /// A session is well-formed when a failed session has nothing open.
    pub open spec fn wf(&self) -> bool {
        self.failed ==> !self.up_open && !self.down_open
    }

    /// The session is over: both directions completed, or one failed.
    pub open spec fn is_over(&self) -> bool {
        !self.up_open && !self.down_open
    }

    /// Whether a direction is still copying.
    pub open spec fn is_open(&self, d: Direction) -> bool {
        match d {
            Direction::InboundToOutbound => self.up_open,
            Direction::OutboundToInbound => self.down_open,
        }
    }

    /// The session after an event.
    pub open spec fn next(&self, event: RelayEvent) -> RelaySession {
        match event {
            RelayEvent::Copied(Direction::InboundToOutbound, n) => if self.up_open {
                RelaySession { bytes_up: saturating_sum(self.bytes_up, n), ..*self }
            } else {
                *self
            },
            RelayEvent::Copied(Direction::OutboundToInbound, n) => if self.down_open {
                RelaySession { bytes_down: saturating_sum(self.bytes_down, n), ..*self }
            } else {
                *self
            },
            RelayEvent::EndOfStream(Direction::InboundToOutbound) => RelaySession {
                up_open: false,
                ..*self
            },
            RelayEvent::EndOfStream(Direction::OutboundToInbound) => RelaySession {
                down_open: false,
                ..*self
            },
            RelayEvent::IoError(_) => if self.is_over() {
                *self
            } else {
                RelaySession { up_open: false, down_open: false, failed: true, ..*self }
            },
        }
    }

    /// What the event asks of the connections.
    pub open spec fn action(&self, event: RelayEvent) -> RelayAction {
        if self.is_over() {
            RelayAction::CloseBoth
        } else {
            match event {
                RelayEvent::Copied(_, _) => RelayAction::Continue,
                RelayEvent::EndOfStream(d) => if !self.is_open(d) {
                    RelayAction::Continue
                } else if self.next(event).is_over() {
                    RelayAction::CloseBoth
                } else {
                    RelayAction::HalfClose(d)
                },
                RelayEvent::IoError(_) => RelayAction::CloseBoth,
            }
        }
    }

    /// The result of the session once it is over: the bytes relayed in both
    /// directions together, or the relay error.
    pub open spec fn outcome(&self) -> Option<Result<u64, DispatchError>> {
        if self.failed {
            Some(Err(DispatchError::RelayIoError))
        } else if self.is_over() {
            Some(Ok(saturating_sum(self.bytes_up, self.bytes_down)))
        } else {
            None
        }
    }

    /// A fresh session: both directions copying, nothing relayed yet.
    pub fn new() -> (r: RelaySession)
        ensures
            r == (RelaySession {
                up_open: true,
                down_open: true,
                failed: false,
                bytes_up: 0,
                bytes_down: 0,
            }),
            r.wf(),
    {
        RelaySession { up_open: true, down_open: true, failed: false, bytes_up: 0, bytes_down: 0 }
    }

    /// Takes one event of a copy direction into the session and says what to
    /// do with the connections.
    pub fn step(&mut self, event: RelayEvent) -> (action: RelayAction)
        ensures
            *final(self) == old(self).next(event),
            action == old(self).action(event),
    {
        let over_before: bool = !self.up_open && !self.down_open;
        match event {
            RelayEvent::Copied(d, n) => {
                match d {
                    Direction::InboundToOutbound => {
                        if self.up_open {
                            self.bytes_up = sum_saturating(self.bytes_up, n);
                        }
                    },
                    Direction::OutboundToInbound => {
                        if self.down_open {
                            self.bytes_down = sum_saturating(self.bytes_down, n);
                        }
                    },
                }
                if over_before {
                    RelayAction::CloseBoth
                } else {
                    RelayAction::Continue
                }
            },
            RelayEvent::EndOfStream(d) => {
                let was_open: bool = match d {
                    Direction::InboundToOutbound => self.up_open,
                    Direction::OutboundToInbound => self.down_open,
                };
                match d {
                    Direction::InboundToOutbound => { self.up_open = false; },
                    Direction::OutboundToInbound => { self.down_open = false; },
                }
                if over_before {
                    RelayAction::CloseBoth
                } else if !was_open {
                    RelayAction::Continue
                } else if !self.up_open && !self.down_open {
                    RelayAction::CloseBoth
                } else {
                    RelayAction::HalfClose(d)
                }
            },
            RelayEvent::IoError(_) => {
                if !over_before {
                    self.up_open = false;
                    self.down_open = false;
                    self.failed = true;
                }
                RelayAction::CloseBoth
            },
        }
    }

    /// The result of the session, if it is over.
    pub fn result(&self) -> (r: Option<Result<u64, DispatchError>>)
        ensures
            r == self.outcome(),
    {
        if self.failed {
            Some(Err(DispatchError::RelayIoError))
        } else if !self.up_open && !self.down_open {
            Some(Ok(sum_saturating(self.bytes_up, self.bytes_down)))
        } else {
            None
        }
    }
}

/// Adds two counters, holding the sum at the largest value.
pub fn sum_saturating(a: u64, b: u64) -> (r: u64)
    ensures
        r == saturating_sum(a, b),
{
    if a > u64::MAX - b {
        u64::MAX
    } else {
        a + b
    }
}

/// Every event keeps a session well-formed, never lowers a counter, never
/// reopens a direction, and leaves a session that is over as it is.
pub proof fn session_only_moves_forward(s: RelaySession, event: RelayEvent)
    requires
        s.wf(),
    ensures
        s.next(event).wf(),
        s.next(event).bytes_up >= s.bytes_up,
        s.next(event).bytes_down >= s.bytes_down,
        s.next(event).up_open ==> s.up_open,
        s.next(event).down_open ==> s.down_open,
        s.failed ==> s.next(event).failed,
        s.is_over() ==> s.next(event) == s && s.action(event) == RelayAction::CloseBoth,
{
}

/// End-of-stream on one direction while the other still copies closes only
/// the write side that the finished direction fed: the other direction
/// stays open. End-of-stream on that other direction then ends the session
/// with the bytes relayed as its result.
pub proof fn half_close_propagates(s: RelaySession, d: Direction, e: Direction)
    requires
        s.wf(),
        s.up_open,
        s.down_open,
        e != d,
    ensures
        s.action(RelayEvent::EndOfStream(d)) == RelayAction::HalfClose(d),
        !s.next(RelayEvent::EndOfStream(d)).is_open(d),
        !s.next(RelayEvent::EndOfStream(d)).is_over(),
        s.next(RelayEvent::EndOfStream(d)).outcome() is None,
        ({
            let t = s.next(RelayEvent::EndOfStream(d));
            &&& t.is_open(e)
            &&& t.action(RelayEvent::EndOfStream(e)) == RelayAction::CloseBoth
            &&& t.next(RelayEvent::EndOfStream(e)).outcome() == Some(
                Ok::<u64, DispatchError>(saturating_sum(s.bytes_up, s.bytes_down)),
            )
        }),
{
}

/// An I/O error in either direction of a running session tears down both
/// directions and makes the relay error the session's result, for good.
pub proof fn io_error_tears_down(s: RelaySession, d: Direction, later: RelayEvent)
    requires
        s.wf(),
        !s.is_over(),
    ensures
        s.action(RelayEvent::IoError(d)) == RelayAction::CloseBoth,
        s.next(RelayEvent::IoError(d)).is_over(),
        s.next(RelayEvent::IoError(d)).outcome() == Some(
            Err::<u64, _>(DispatchError::RelayIoError),
        ),
        s.next(RelayEvent::IoError(d)).next(later).outcome() == Some(
            Err::<u64, _>(DispatchError::RelayIoError),
        ),
{
}

} // verus!
