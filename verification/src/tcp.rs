//! What the state of a connection means for an operation that waits on it.

use vstd::prelude::*;

verus! {

/// First local port that a connection is tried from.
pub const FIRST_PORT: u16 = 49152;

/// Number of local ports that are tried.
pub const PORT_TRIES: u16 = 16;

/// The states of a connection.
#[derive(Clone, Copy, Debug, PartialEq, Eq, Structural)]
pub enum TcpState {
    Closed,
    Listen,
    SynSent,
    SynReceived,
    Established,
    FinWait1,
    FinWait2,
    CloseWait,
    Closing,
    LastAck,
    TimeWait,
}

/// Which directions of a connection are shut down.
#[derive(Clone, Copy, Debug, PartialEq, Eq, Structural)]
pub enum Shutdown {
    Write,
    Both,
}

/// Why a connection failed.
#[derive(Clone, Copy, Debug, PartialEq, Eq, Structural)]
pub enum TcpError {
    /// The peer cannot be reached from this port.
    Unaddressable,
}

/// Whether a connection attempt is over, and how: it is still under way
/// while the first segment is unanswered, it has failed if the connection is
/// closed, and it has succeeded in any other state.
pub fn connect_progress(state: TcpState) -> (r: Option<Result<(), TcpError>>)
    ensures
        r == match state {
            TcpState::SynSent => None,
            TcpState::Closed => Some(Err::<(), TcpError>(TcpError::Unaddressable)),
            _ => Some(Ok::<(), TcpError>(())),
        },
{
    match state {
        TcpState::SynSent => None,
        TcpState::Closed => Some(Err(TcpError::Unaddressable)),
        _ => Some(Ok(())),
    }
}

/// Whether a shutdown is complete: the connection is closed or lingering, or
/// only the writing side was shut down and the peer has acknowledged that.
pub fn shutdown_progress(how: Shutdown, state: TcpState) -> (r: bool)
    ensures
        r == (state == TcpState::TimeWait || state == TcpState::Closed || (state
            == TcpState::FinWait2 && how == Shutdown::Write)),
{
    match state {
        TcpState::FinWait2 => how == Shutdown::Write,
        TcpState::TimeWait | TcpState::Closed => true,
        _ => false,
    }
}

/// The local port to try after a connection from `port` failed as
/// unaddressable: the next one, unless `port` was the last of the range.
pub fn next_port(port: u16) -> (r: Option<u16>)
    requires
        FIRST_PORT <= port < FIRST_PORT + PORT_TRIES,
    ensures
        r == if port == FIRST_PORT + PORT_TRIES - 1 {
            None
        } else {
            Some((port + 1) as u16)
        },
{
    if port == FIRST_PORT + PORT_TRIES - 1 {
        None
    } else {
        Some(port + 1)
    }
}

} // verus!
