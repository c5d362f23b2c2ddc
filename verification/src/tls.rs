//! Marker capabilities for end-to-end encryption handshakes.

use vstd::prelude::*;

use crate::upgradable::Upgrader;

verus! {

/// A transformer that performs a client-side encryption handshake.
pub trait TlsClientUpgrader<S>: Upgrader<S> {

}

impl<S> TlsClientUpgrader<S> for () {

}

/// A transformer that performs a server-side encryption handshake.
pub trait TlsServerUpgrader<S>: Upgrader<S> {

}

impl<S> TlsServerUpgrader<S> for () {

}

} // verus!
