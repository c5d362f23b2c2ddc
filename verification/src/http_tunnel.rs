//! Marker capabilities for forward-proxy tunnel negotiation.
//!
//! A tunnel transformer performs the tunnel handshake over a transport and
//! must be able to reverse the transformation afterwards, since what flows
//! through an established tunnel has to look like a plain byte stream again
//! to any subsequent layer.

use vstd::prelude::*;

use crate::gradable::Downgrader;
use crate::upgradable::Upgrader;

verus! {

/// A transformer that negotiates a client-side tunnel and can undo the
/// transformation once the tunnel is established.
pub trait HttpTunnelClientGrader<S>: Upgrader<S> + Downgrader<S> {

}

impl<S> HttpTunnelClientGrader<S> for () {

}

/// The server-side counterpart of `HttpTunnelClientGrader`.
pub trait HttpTunnelServerGrader<S>: Upgrader<S> + Downgrader<S> {

}

impl<S> HttpTunnelServerGrader<S> for () {

}

} // verus!
