//! The SMTP client adapter: a fixed, protocol-appropriate use of the
//! transition primitive. An SMTP client either negotiates STARTTLS after the
//! greeting and EHLO exchange, or upgrades immediately on an implicit-TLS
//! port; both start from the same pending composition.

use vstd::prelude::*;

use crate::tls::TlsClientUpgrader;
use crate::upgradable::{Inner, UpgradableAsyncStream};

verus! {

/// The composition an SMTP client drives: the transport plus the client-side
/// encryption transformer, pending until the protocol calls for the upgrade.
pub type SmtpClientInnerStream<S, SU> = UpgradableAsyncStream<S, SU>;

impl<S, SU: TlsClientUpgrader<S>> SmtpClientInnerStream<S, SU> {
    /// A pending SMTP client composition.
    pub fn with_smtp_client(stream: S, tls_upgrader: SU) -> (r: Self)
        ensures
            r.inner == (Inner::Pending { stream, upgrader: tls_upgrader }),
    {
        Self::new(stream, tls_upgrader)
    }
}

} // verus!
