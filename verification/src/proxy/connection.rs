//! The life of one connection: the stages it passes through, in order, and
//! the error that closes it early.

use vstd::prelude::*;
use crate::proxy::acceptor::AcceptError;
use crate::proxy::relay::DispatchError;

verus! {

/// The stages of a connection, in the order in which they are entered.
#[derive(Clone, Copy, Debug, PartialEq, Eq, Structural)]
pub enum Stage {
    Accepted,
    TlsHandshaking,
    ProtocolDetecting,
    Authenticating,
    OutboundConnecting,
    Relaying,
    Closed,
}

/// The errors that close a single connection.
#[derive(Clone, Copy, Debug, PartialEq, Eq, Structural)]
pub enum ConnectionError {
    TlsHandshakeFailed,
    ProtocolUnrecognized,
    AuthFailed,
    Timeout,
    OutboundConnectFailed,
    RelayIoError,
}

/// How the work of a stage ended.
#[derive(Clone, Copy, Debug, PartialEq, Eq, Structural)]
pub enum StageResult {
    Completed,
    Failed,
    TimedOut,
}

/// A connection: the stage it is in and, once closed, the error that closed
/// it, if any.
#[derive(Clone, Copy, Debug, PartialEq, Eq, Structural)]
pub struct Connection {
    pub stage: Stage,
    pub error: Option<ConnectionError>,
}

/// The position of a stage in the pipeline.
pub open spec fn rank(stage: Stage) -> nat {
    match stage {
        Stage::Accepted => 0,
        Stage::TlsHandshaking => 1,
        Stage::ProtocolDetecting => 2,
        Stage::Authenticating => 3,
        Stage::OutboundConnecting => 4,
        Stage::Relaying => 5,
        Stage::Closed => 6,
    }
}

/// The stage that follows a completed one. The handshake is entered only
/// with TLS, the authentication only with a shared secret.
pub open spec fn following_stage(stage: Stage, tls: bool, has_secret: bool) -> Stage {
    match stage {
        Stage::Accepted => if tls {
            Stage::TlsHandshaking
        } else {
            Stage::ProtocolDetecting
        },
        Stage::TlsHandshaking => Stage::ProtocolDetecting,
        Stage::ProtocolDetecting => if has_secret {
            Stage::Authenticating
        } else {
            Stage::OutboundConnecting
        },
        Stage::Authenticating => Stage::OutboundConnecting,
        Stage::OutboundConnecting => Stage::Relaying,
        Stage::Relaying => Stage::Closed,
        Stage::Closed => Stage::Closed,
    }
}

/// The error with which a stage that did not complete closes the
/// connection. Running out of time counts as the stage's own failure,
/// except in detection, where it is a timeout of its own kind. Being
/// accepted is no work that could fail.
pub open spec fn stage_error(stage: Stage, result: StageResult) -> Option<ConnectionError> {
    if result == StageResult::Completed {
        None
    } else {
        match stage {
            Stage::Accepted => None,
            Stage::TlsHandshaking => Some(ConnectionError::TlsHandshakeFailed),
            Stage::ProtocolDetecting => if result == StageResult::TimedOut {
                Some(ConnectionError::Timeout)
            } else {
                Some(ConnectionError::ProtocolUnrecognized)
            },
            Stage::Authenticating => Some(ConnectionError::AuthFailed),
            Stage::OutboundConnecting => Some(ConnectionError::OutboundConnectFailed),
            Stage::Relaying => Some(ConnectionError::RelayIoError),
            Stage::Closed => None,
        }
    }
}

/// The connection after the work of its stage ended with `result`.
pub open spec fn advanced(c: Connection, result: StageResult, tls: bool, has_secret: bool) -> Connection {
    if c.stage == Stage::Closed {
        c
    } else {
        match stage_error(c.stage, result) {
            Some(e) => Connection { stage: Stage::Closed, error: Some(e) },
            None => Connection { stage: following_stage(c.stage, tls, has_secret), error: c.error },
        }
    }
}

/// The connection error that an acceptor's refusal stands for.
pub open spec fn accept_failure(e: AcceptError) -> ConnectionError {
    match e {
        AcceptError::TlsHandshakeFailed => ConnectionError::TlsHandshakeFailed,
        AcceptError::ProtocolUnrecognized => ConnectionError::ProtocolUnrecognized,
        AcceptError::AuthFailed => ConnectionError::AuthFailed,
        AcceptError::Timeout => ConnectionError::Timeout,
    }
}

/// The connection error that a failed dispatch stands for.
pub open spec fn dispatch_failure(e: DispatchError) -> ConnectionError {
    match e {
        DispatchError::OutboundConnectFailed => ConnectionError::OutboundConnectFailed,
        DispatchError::RelayIoError => ConnectionError::RelayIoError,
    }
}

/// The connection after it was closed with an error: a connection that is
/// closed already keeps what it closed with.
pub open spec fn closed_with(c: Connection, error: ConnectionError) -> Connection {
    if c.stage == Stage::Closed {
        c
    } else {
        Connection { stage: Stage::Closed, error: Some(error) }
    }
}

impl ConnectionError {
    /// The error of a connection that the acceptor refused.
    pub fn from_accept(e: AcceptError) -> (r: ConnectionError)
        ensures
            r == accept_failure(e),
    {
        match e {
            AcceptError::TlsHandshakeFailed => ConnectionError::TlsHandshakeFailed,
            AcceptError::ProtocolUnrecognized => ConnectionError::ProtocolUnrecognized,
            AcceptError::AuthFailed => ConnectionError::AuthFailed,
            AcceptError::Timeout => ConnectionError::Timeout,
        }
    }

    /// The error of a connection whose dispatch failed.
    pub fn from_dispatch(e: DispatchError) -> (r: ConnectionError)
        ensures
            r == dispatch_failure(e),
    {
        match e {
            DispatchError::OutboundConnectFailed => ConnectionError::OutboundConnectFailed,
            DispatchError::RelayIoError => ConnectionError::RelayIoError,
        }
    }

    /// Whether the error is a sign of an attack or a misconfiguration
    /// rather than of network noise, and is to be logged as such.
    pub fn is_security_relevant(&self) -> (r: bool)
        ensures
            r == (*self == ConnectionError::AuthFailed),
    {
        match self {
            ConnectionError::AuthFailed => true,
            _ => false,
        }
    }
}

impl Connection {
    /// A connection is well-formed when only a closed one carries an error.
    pub open spec fn wf(&self) -> bool {
        self.error is Some ==> self.stage == Stage::Closed
    }

    /// A connection that was just accepted.
    pub fn new() -> (r: Connection)
        ensures
            r == (Connection { stage: Stage::Accepted, error: None }),
            r.wf(),
    {
        Connection { stage: Stage::Accepted, error: None }
    }

    /// Moves the connection on after the work of its stage has ended.
    pub fn advance(&mut self, result: StageResult, tls: bool, has_secret: bool)
        ensures
            *final(self) == advanced(*old(self), result, tls, has_secret),
    {
        let failed: bool = match result {
            StageResult::Completed => false,
            _ => true,
        };
        let timed_out: bool = match result {
            StageResult::TimedOut => true,
            _ => false,
        };
        match self.stage {
            Stage::Closed => {},
            Stage::Accepted => {
                self.stage = if tls {
                    Stage::TlsHandshaking
                } else {
                    Stage::ProtocolDetecting
                };
            },
            Stage::TlsHandshaking => {
                if failed {
                    self.close(ConnectionError::TlsHandshakeFailed);
                } else {
                    self.stage = Stage::ProtocolDetecting;
                }
            },
            Stage::ProtocolDetecting => {
                if timed_out {
                    self.close(ConnectionError::Timeout);
                } else if failed {
                    self.close(ConnectionError::ProtocolUnrecognized);
                } else {
                    self.stage = if has_secret {
                        Stage::Authenticating
                    } else {
                        Stage::OutboundConnecting
                    };
                }
            },
            Stage::Authenticating => {
                if failed {
                    self.close(ConnectionError::AuthFailed);
                } else {
                    self.stage = Stage::OutboundConnecting;
                }
            },
            Stage::OutboundConnecting => {
                if failed {
                    self.close(ConnectionError::OutboundConnectFailed);
                } else {
                    self.stage = Stage::Relaying;
                }
            },
            Stage::Relaying => {
                if failed {
                    self.close(ConnectionError::RelayIoError);
                } else {
                    self.stage = Stage::Closed;
                }
            },
        }
    }

    /// Closes the connection with an error.
    fn close(&mut self, error: ConnectionError)
        ensures
            *final(self) == (Connection { stage: Stage::Closed, error: Some(error) }),
    {
        self.stage = Stage::Closed;
        self.error = Some(error);
    }

    /// Closes an open connection with the given error, from whatever stage
    /// it is in. A closed connection is left as it is.
    pub fn close_with(&mut self, error: ConnectionError)
        ensures
            *final(self) == closed_with(*old(self), error),
    {
        match self.stage {
            Stage::Closed => {},
            _ => { self.close(error); },
        }
    }
}

/// There is no way back: every step of an open connection enters a later
/// stage, a closed connection stays as it is, and a stage that did not
/// complete closes the connection with an error.
pub proof fn stages_only_advance(c: Connection, result: StageResult, tls: bool, has_secret: bool)
    requires
        c.wf(),
    ensures
        advanced(c, result, tls, has_secret).wf(),
        c.stage != Stage::Closed ==> rank(advanced(c, result, tls, has_secret).stage) > rank(
            c.stage,
        ),
        c.stage == Stage::Closed ==> advanced(c, result, tls, has_secret) == c,
        (c.stage != Stage::Closed && c.stage != Stage::Accepted && result != StageResult::Completed)
            ==> advanced(c, result, tls, has_secret).stage == Stage::Closed && advanced(
            c,
            result,
            tls,
            has_secret,
        ).error is Some,
{
}

/// A wrong credential ends the connection before any outbound connection
/// is opened and before anything is relayed: with a secret configured the
/// authentication stage comes before both, a failure in it leads straight
/// to the closed stage with `AuthFailed`, and nothing that happens later
/// moves the connection out of it.
pub proof fn failed_authentication_relays_nothing(tls: bool, later: StageResult)
    ensures
        following_stage(Stage::ProtocolDetecting, tls, true) == Stage::Authenticating,
        rank(Stage::Authenticating) < rank(Stage::OutboundConnecting) < rank(Stage::Relaying),
        ({
            let refused = advanced(
                Connection { stage: Stage::Authenticating, error: None },
                StageResult::Failed,
                tls,
                true,
            );
            &&& refused == (Connection {
                stage: Stage::Closed,
                error: Some(ConnectionError::AuthFailed),
            })
            &&& refused == closed_with(
                Connection { stage: Stage::Authenticating, error: None },
                accept_failure(AcceptError::AuthFailed),
            )
            &&& advanced(refused, later, tls, true) == refused
        }),
{
}

} // verus!
