//! UDP transport.

use vstd::prelude::*;

use crate::error::ErrorCode;

verus! {

/// UDP transport over a socket
pub struct Udp<T>(pub T);

/// The address of a peer.
#[derive(Debug, Clone, Copy, PartialEq, Eq)]
pub enum Address<A> {
    /// A peer on a UDP socket.
    Udp(A),
    /// A peer on a TCP socket.
    Tcp(A),
    /// A peer over BLE.
    Btp([u8; 6]),
}

impl<A> Address<A> {
    /// Whether the peer is reached over UDP.
    pub fn is_udp(&self) -> (res: bool)
        ensures
            res == (self is Udp),
    {
        matches!(self, Address::Udp(_))
    }
}

/// The address to send to.
pub open spec fn remote_of<A>(addr: Address<A>) -> Result<A, ErrorCode> {
    match addr {
        Address::Udp(remote) => Ok(remote),
        _ => Err(ErrorCode::NoNetworkInterface),
    }
}

/// What was received, and from whom.
pub open spec fn received_from<A>(received: Option<(usize, A)>) -> Result<
    (usize, Address<A>),
    ErrorCode,
> {
    match received {
        Some((size, addr)) => Ok((size, Address::Udp(addr))),
        None => Err(ErrorCode::StdIoError),
    }
}

/// The outcome of an operation of a socket.
pub open spec fn io_outcome(succeeded: bool) -> Result<(), ErrorCode> {
    if succeeded {
        Ok(())
    } else {
        Err(ErrorCode::StdIoError)
    }
}

impl<T> Udp<T> {
    /// The address to send to: only peers on UDP can be reached.
    pub fn send_to<A>(addr: Address<A>) -> (res: Result<A, ErrorCode>)
        ensures
            match addr {
                Address::Udp(remote) => res is Ok && res->Ok_0 == remote,
                _ => res is Err && res->Err_0 == ErrorCode::NoNetworkInterface,
            },
            res == remote_of(addr),
    {
        match addr {
            Address::Udp(remote) => Ok(remote),
            _ => Err(ErrorCode::NoNetworkInterface),
        }
    }

    /// What was received, and from whom; a failure of the socket is an I/O error.
    pub fn recv_from<A>(received: Option<(usize, A)>) -> (res: Result<
        (usize, Address<A>),
        ErrorCode,
    >)
        ensures
            match received {
                Some((size, addr)) => res is Ok && res->Ok_0 == (size, Address::Udp(addr)),
                None => res is Err && res->Err_0 == ErrorCode::StdIoError,
            },
            res == received_from(received),
    {
        match received {
            Some((size, addr)) => Ok((size, Address::Udp(addr))),
            None => Err(ErrorCode::StdIoError),
        }
    }

    /// The outcome of any other operation of the socket.
    pub fn outcome(succeeded: bool) -> (res: Result<(), ErrorCode>)
        ensures
            res == (if succeeded {
                Ok::<(), ErrorCode>(())
            } else {
                Err(ErrorCode::StdIoError)
            }),
            res == io_outcome(succeeded),
    {
        if succeeded {
            Ok(())
        } else {
            Err(ErrorCode::StdIoError)
        }
    }
}

} // verus!
