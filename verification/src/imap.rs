//! The IMAP client adapter: a fixed, protocol-appropriate use of the
//! transition primitive. An IMAP client either reads the greeting in plain
//! text and upgrades after a STARTTLS exchange, or upgrades immediately on
//! an implicit-TLS port; both start from the same pending composition.

use vstd::prelude::*;

use crate::tls::TlsClientUpgrader;
use crate::upgradable::{Inner, UpgradableAsyncStream};

verus! {

/// The composition an IMAP client drives: the transport plus the client-side
/// encryption transformer, pending until the protocol calls for the upgrade.
pub type ImapClientInnerStream<S, SU> = UpgradableAsyncStream<S, SU>;

impl<S, SU: TlsClientUpgrader<S>> ImapClientInnerStream<S, SU> {
    /// A pending IMAP client composition.
    pub fn with_imap_client(stream: S, tls_upgrader: SU) -> (r: Self)
        ensures
            r.inner == (Inner::Pending { stream, upgrader: tls_upgrader }),
    {
        Self::new(stream, tls_upgrader)
    }
}

} // verus!
