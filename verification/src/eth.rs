//! Ethernet networks.

use vstd::prelude::*;

use crate::private::Sealed;

verus! {

/// A network type for Ethernet.
///
/// Note that "Ethernet" - in the context of this crate - means
/// not just the Ethernet transport, but also any other IP-based transport
/// (like Wifi or Thread), where the Matter stack would not be concerned
/// with the management of the network transport (as in re-connecting to the
/// network on lost signal, managing network credentials and so on).
pub struct Eth<E> {
    pub embedding: E,
}

impl<E> Sealed for Eth<E> {

}

impl<E> Eth<E> {
    /// Create a network with the given user data.
    pub fn new(embedding: E) -> (res: Self)
        ensures
            res.embedding == embedding,
    {
        Self { embedding }
    }

    /// There is no state of the network that would have to be persisted.
    pub fn persist_context(&self) -> (res: ())
        ensures
            res == (),
    {
    }

    /// The user data.
    pub fn embedding(&self) -> (res: &E)
        ensures
            *res == self.embedding,
    {
        &self.embedding
    }
}

/// A utility type for running an ethernet task with a pre-existing ethernet interface
/// rather than bringing up / tearing down the ethernet interface for the task.
pub struct PreexistingEthernet<N, U> {
    pub netif: N,
    pub udp: U,
}

impl<N, U> PreexistingEthernet<N, U> {
    /// Create a new `PreexistingEthernet` instance with the given network interface and UDP stack.
    pub fn new(netif: N, udp: U) -> (res: Self)
        ensures
            res.netif == netif,
            res.udp == udp,
    {
        Self { netif, udp }
    }
}

} // verus!
