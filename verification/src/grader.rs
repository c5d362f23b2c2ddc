//! The concrete transformer of the model: it wraps a transport in a layer
//! tagged with its identifier and records every forward or reverse
//! transition in the transport's trace.

use vstd::prelude::*;

use crate::byte_stream::{CursorStream, LayeredStream, TransitionEvent};
use crate::errors::StreamError;
use crate::gradable::{Downgrader, GradableAsyncStream};
use crate::http::HttpClientInnerStream;
use crate::http_tunnel::HttpTunnelClientGrader;
use crate::tls::TlsClientUpgrader;
use crate::upgradable::Upgrader;
use crate::upgradable_ext::{UpgraderExtIntoStream, UpgraderExtRefer};

verus! {

/// `x + 1`, stopping at the largest value instead of wrapping.
pub open spec fn saturating_inc(x: u64) -> u64 {
    if x == u64::MAX {
        u64::MAX
    } else {
        (x + 1) as u64
    }
}

fn bump(x: u64) -> (r: u64)
    ensures
        r == saturating_inc(x),
{
    if x == u64::MAX {
        u64::MAX
    } else {
        x + 1
    }
}

/// A transformer that stacks a layer tagged with its identifier onto a
/// transport, as a stand-in for a handshake-performing collaborator.
///
/// Its declared requirements, an optional single-use policy and scripted
/// failures of either operation are all plain fields, so a composition can
/// be driven through every success and failure path.
pub struct LayerGrader {
    /// Tags the layers this transformer stacks and the transitions it
    /// records.
    pub id: u64,
    /// Whether a forward transition is declared required.
    pub upgrade_needed: bool,
    /// Whether a reverse transition is declared required.
    pub downgrade_needed: bool,
    /// When set, each operation is declared required only until it has
    /// succeeded once.
    pub single_use: bool,
    /// When set, the forward operation fails with this transformer's
    /// identifier as the error code.
    pub fail_upgrade: bool,
    /// When set, the reverse operation fails likewise.
    pub fail_downgrade: bool,
    /// How many forward operations have succeeded.
    pub upgrade_count: u64,
    /// How many reverse operations have succeeded.
    pub downgrade_count: u64,
}

impl LayerGrader {
    /// A transformer that requires both transitions, never fails and may be
    /// used any number of times.
    pub fn new(id: u64) -> (r: Self)
        ensures
            r == (LayerGrader {
                id,
                upgrade_needed: true,
                downgrade_needed: true,
                single_use: false,
                fail_upgrade: false,
                fail_downgrade: false,
                upgrade_count: 0,
                downgrade_count: 0,
            }),
    {
        LayerGrader {
            id,
            upgrade_needed: true,
            downgrade_needed: true,
            single_use: false,
            fail_upgrade: false,
            fail_downgrade: false,
            upgrade_count: 0,
            downgrade_count: 0,
        }
    }

    /// The transformer's state after one more successful forward operation.
    pub open spec fn after_upgrade_spec(&self) -> Self {
        LayerGrader { upgrade_count: saturating_inc(self.upgrade_count), ..*self }
    }

    /// The transformer's state after one more successful reverse operation.
    pub open spec fn after_downgrade_spec(&self) -> Self {
        LayerGrader { downgrade_count: saturating_inc(self.downgrade_count), ..*self }
    }

    /// The transition this transformer records in a transport's trace.
    pub open spec fn event_spec(&self, reverse: bool) -> TransitionEvent {
        TransitionEvent { id: self.id, reverse }
    }
}

impl Upgrader<CursorStream> for LayerGrader {
    type Output = LayeredStream;

    open spec fn upgrade_required_spec(&self) -> bool {
        self.upgrade_needed && (!self.single_use || self.upgrade_count == 0)
    }

    open spec fn upgrade_spec(
        &self,
        stream: CursorStream,
        r: Result<LayeredStream, StreamError>,
        after: Self,
    ) -> bool {
        if self.fail_upgrade {
            r == Err::<LayeredStream, StreamError>(StreamError::Transformer(self.id)) && after
                == *self
        } else {
            after == self.after_upgrade_spec() && match r {
                Ok(out) => {
                    &&& out.layers@ == seq![self.id]
                    &&& out.inner.data@ == stream.data@
                    &&& out.inner.pos == stream.pos
                    &&& out.inner.trace@ == stream.trace@.push(self.event_spec(false))
                },
                Err(_) => false,
            }
        }
    }

    fn upgrade_required(&self) -> (b: bool) {
        self.upgrade_needed && (!self.single_use || self.upgrade_count == 0)
    }

    fn upgrade(&mut self, stream: CursorStream) -> (r: Result<LayeredStream, StreamError>) {
        if self.fail_upgrade {
            return Err(StreamError::Transformer(self.id));
        }
        self.upgrade_count = bump(self.upgrade_count);
        let mut inner = stream;
        inner.record(self.id, false);
        let mut layers: Vec<u64> = Vec::new();
        layers.push(self.id);
        proof {
            assert(layers@ =~= seq![self.id]);
        }
        Ok(LayeredStream { inner, layers })
    }
}

impl Upgrader<LayeredStream> for LayerGrader {
    type Output = LayeredStream;

    open spec fn upgrade_required_spec(&self) -> bool {
        self.upgrade_needed && (!self.single_use || self.upgrade_count == 0)
    }

    open spec fn upgrade_spec(
        &self,
        stream: LayeredStream,
        r: Result<LayeredStream, StreamError>,
        after: Self,
    ) -> bool {
        if self.fail_upgrade {
            r == Err::<LayeredStream, StreamError>(StreamError::Transformer(self.id)) && after
                == *self
        } else {
            after == self.after_upgrade_spec() && match r {
                Ok(out) => {
                    &&& out.layers@ == stream.layers@.push(self.id)
                    &&& out.inner.data@ == stream.inner.data@
                    &&& out.inner.pos == stream.inner.pos
                    &&& out.inner.trace@ == stream.inner.trace@.push(self.event_spec(false))
                },
                Err(_) => false,
            }
        }
    }

    fn upgrade_required(&self) -> (b: bool) {
        self.upgrade_needed && (!self.single_use || self.upgrade_count == 0)
    }

    fn upgrade(&mut self, stream: LayeredStream) -> (r: Result<LayeredStream, StreamError>) {
        if self.fail_upgrade {
            return Err(StreamError::Transformer(self.id));
        }
        self.upgrade_count = bump(self.upgrade_count);
        let mut out = stream;
        out.inner.record(self.id, false);
        out.layers.push(self.id);
        Ok(out)
    }
}

impl Downgrader<CursorStream> for LayerGrader {
    open spec fn downgrade_required_spec(&self) -> bool {
        self.downgrade_needed && (!self.single_use || self.downgrade_count == 0)
    }

    open spec fn downgrade_spec(
        &self,
        output: LayeredStream,
        r: Result<CursorStream, StreamError>,
        after: Self,
    ) -> bool {
        if self.fail_downgrade || output.layers@ != seq![self.id] {
            r == Err::<CursorStream, StreamError>(StreamError::Transformer(self.id)) && after
                == *self
        } else {
            after == self.after_downgrade_spec() && match r {
                Ok(s) => {
                    &&& s.data@ == output.inner.data@
                    &&& s.pos == output.inner.pos
                    &&& s.trace@ == output.inner.trace@.push(self.event_spec(true))
                },
                Err(_) => false,
            }
        }
    }

    fn downgrade_required(&self) -> (b: bool) {
        self.downgrade_needed && (!self.single_use || self.downgrade_count == 0)
    }

    fn downgrade(&mut self, output: LayeredStream) -> (r: Result<CursorStream, StreamError>) {
        if self.fail_downgrade {
            return Err(StreamError::Transformer(self.id));
        }
        if output.layers.len() != 1 {
            proof {
                assert(output.layers@ != seq![self.id]);
            }
            return Err(StreamError::Transformer(self.id));
        }
        if output.layers[0] != self.id {
            proof {
                assert(output.layers@ != seq![self.id]);
            }
            return Err(StreamError::Transformer(self.id));
        }
        proof {
            assert(output.layers@ =~= seq![self.id]);
        }
        self.downgrade_count = bump(self.downgrade_count);
        let mut inner = output.inner;
        inner.record(self.id, true);
        Ok(inner)
    }
}

impl Downgrader<LayeredStream> for LayerGrader {
    open spec fn downgrade_required_spec(&self) -> bool {
        self.downgrade_needed && (!self.single_use || self.downgrade_count == 0)
    }

    open spec fn downgrade_spec(
        &self,
        output: LayeredStream,
        r: Result<LayeredStream, StreamError>,
        after: Self,
    ) -> bool {
        if self.fail_downgrade || output.layers@.len() == 0 || output.layers@.last() != self.id {
            r == Err::<LayeredStream, StreamError>(StreamError::Transformer(self.id)) && after
                == *self
        } else {
            after == self.after_downgrade_spec() && match r {
                Ok(s) => {
                    &&& s.layers@ == output.layers@.drop_last()
                    &&& s.inner.data@ == output.inner.data@
                    &&& s.inner.pos == output.inner.pos
                    &&& s.inner.trace@ == output.inner.trace@.push(self.event_spec(true))
                },
                Err(_) => false,
            }
        }
    }

    fn downgrade_required(&self) -> (b: bool) {
        self.downgrade_needed && (!self.single_use || self.downgrade_count == 0)
    }

    fn downgrade(&mut self, output: LayeredStream) -> (r: Result<LayeredStream, StreamError>) {
        if self.fail_downgrade {
            return Err(StreamError::Transformer(self.id));
        }
        let mut out = output;
        match out.layers.pop() {
            Some(top) => {
                if top == self.id {
                    self.downgrade_count = bump(self.downgrade_count);
                    out.inner.record(self.id, true);
                    Ok(out)
                } else {
                    Err(StreamError::Transformer(self.id))
                }
            },
            None => Err(StreamError::Transformer(self.id)),
        }
    }
}

impl TlsClientUpgrader<CursorStream> for LayerGrader {

}

impl TlsClientUpgrader<LayeredStream> for LayerGrader {

}

impl HttpTunnelClientGrader<CursorStream> for LayerGrader {

}

impl HttpTunnelClientGrader<LayeredStream> for LayerGrader {

}

impl UpgraderExtRefer<CursorStream> for LayerGrader {
    open spec fn refer_spec(output: LayeredStream) -> CursorStream {
        output.inner
    }

    open spec fn replace_spec(output: LayeredStream, stream: CursorStream) -> LayeredStream {
        LayeredStream { inner: stream, ..output }
    }

    fn get_ref(output: &LayeredStream) -> (r: &CursorStream) {
        &output.inner
    }

    fn get_mut(output: &mut LayeredStream) -> (r: &mut CursorStream) {
        &mut output.inner
    }
}

impl UpgraderExtIntoStream<CursorStream> for LayerGrader {
    open spec fn into_stream_spec(output: LayeredStream, r: Result<CursorStream, StreamError>) -> bool {
        r == Ok::<CursorStream, StreamError>(output.inner)
    }

    fn into_stream(output: LayeredStream) -> (r: Result<CursorStream, StreamError>) {
        Ok(output.inner)
    }
}

/// Forward-then-reverse round trip: when a pending stream `st0` is upgraded
/// successfully into `st1` and then downgraded successfully into `st2`, the
/// stream is pending again and its transport carries the same bytes at the
/// same position as before any transition, with exactly the forward and the
/// reverse transition appended to its trace.
pub proof fn lemma_round_trip_preserves_content(
    st0: GradableAsyncStream<CursorStream, LayerGrader>,
    st1: GradableAsyncStream<CursorStream, LayerGrader>,
    st2: GradableAsyncStream<CursorStream, LayerGrader>,
)
    requires
        st0.is_pending_spec(),
        st1.is_upgraded_spec(),
        <LayerGrader as Upgrader<CursorStream>>::upgrade_spec(
            &st0.pending_upgrader_spec(),
            st0.pending_stream_spec(),
            Ok(st1.upgraded_output_spec()),
            st1.upgraded_upgrader_spec(),
        ),
        st2.is_pending_spec(),
        <LayerGrader as Downgrader<CursorStream>>::downgrade_spec(
            &st1.upgraded_upgrader_spec(),
            st1.upgraded_output_spec(),
            Ok(st2.pending_stream_spec()),
            st2.pending_upgrader_spec(),
        ),
    ensures
        st2.pending_stream_spec().data@ == st0.pending_stream_spec().data@,
        st2.pending_stream_spec().pos == st0.pending_stream_spec().pos,
        st2.pending_stream_spec().trace@ == st0.pending_stream_spec().trace@.push(
            st0.pending_upgrader_spec().event_spec(false),
        ).push(st0.pending_upgrader_spec().event_spec(true)),
{
}

/// Plain-tunnel invocation order: when resolution through a plain tunnel and
/// without end-to-end encryption succeeds, the result is the plain-tunnel
/// tag, its transport carries the same bytes at the same position as the
/// input, and the transport's trace records exactly the tunnel's forward
/// transition followed by its reverse transition.
pub proof fn lemma_plain_tunnel_invocation_order(
    stream: CursorStream,
    htg: LayerGrader,
    r: Result<HttpClientInnerStream<CursorStream, LayerGrader, LayerGrader>, StreamError>,
    v: HttpClientInnerStream<CursorStream, LayerGrader, LayerGrader>,
)
    requires
        HttpClientInnerStream::<CursorStream, LayerGrader, LayerGrader>::plain_tunnel_spec(
            stream,
            htg,
            None,
            r,
        ),
        r == Ok::<HttpClientInnerStream<CursorStream, LayerGrader, LayerGrader>, StreamError>(v),
    ensures
        v is Case3,
        v matches HttpClientInnerStream::Case3(s2) ==> {
            &&& s2.data@ == stream.data@
            &&& s2.pos == stream.pos
            &&& s2.trace@ == stream.trace@.push(htg.event_spec(false)).push(htg.event_spec(true))
        },
{
    let (tun, htg2, s2, htg3) = choose|
        tun: LayeredStream,
        htg2: LayerGrader,
        s2: CursorStream,
        htg3: LayerGrader,
    |
        {
            &&& <LayerGrader as Upgrader<CursorStream>>::upgrade_spec(&htg, stream, Ok(tun), htg2)
            &&& <LayerGrader as Downgrader<CursorStream>>::downgrade_required_spec(&htg2)
            &&& <LayerGrader as Downgrader<CursorStream>>::downgrade_spec(&htg2, tun, Ok(s2), htg3)
            &&& v == HttpClientInnerStream::<CursorStream, LayerGrader, LayerGrader>::Case3(s2)
        };
    assert(s2.trace@ == stream.trace@.push(htg.event_spec(false)).push(htg.event_spec(true)));
}

/// Encrypted-tunnel invocation order: when resolution through an encrypted
/// tunnel with end-to-end encryption succeeds, the result is the
/// encrypted-tunnel-encrypted tag, its transport carries the same bytes at
/// the same position as the input, the active layers are exactly the leg
/// encryption under the end-to-end encryption, and the transport's trace
/// records exactly the leg-encryption forward transition, the tunnel's
/// forward transition, the tunnel's reverse transition, and the end-to-end
/// encryption forward transition, in that order.
pub proof fn lemma_tls_tunnel_invocation_order(
    stream: CursorStream,
    httu: LayerGrader,
    htg: LayerGrader,
    tu: LayerGrader,
    r: Result<HttpClientInnerStream<CursorStream, LayerGrader, LayerGrader>, StreamError>,
    v: HttpClientInnerStream<CursorStream, LayerGrader, LayerGrader>,
)
    requires
        HttpClientInnerStream::<CursorStream, LayerGrader, LayerGrader>::tls_tunnel_spec(
            stream,
            httu,
            htg,
            Some(tu),
            r,
        ),
        r == Ok::<HttpClientInnerStream<CursorStream, LayerGrader, LayerGrader>, StreamError>(v),
    ensures
        v is Case6,
        v matches HttpClientInnerStream::Case6(out) ==> {
            &&& out.inner.data@ == stream.data@
            &&& out.inner.pos == stream.pos
            &&& out.inner.trace@ == stream.trace@.push(httu.event_spec(false)).push(
                htg.event_spec(false),
            ).push(htg.event_spec(true)).push(tu.event_spec(false))
            &&& out.layers@ == seq![httu.id, tu.id]
        },
{
    let (leg, httu2, tun, htg2, leg2, htg3) = choose|
        leg: LayeredStream,
        httu2: LayerGrader,
        tun: LayeredStream,
        htg2: LayerGrader,
        leg2: LayeredStream,
        htg3: LayerGrader,
    |
        {
            &&& <LayerGrader as Upgrader<CursorStream>>::upgrade_spec(&httu, stream, Ok(leg), httu2)
            &&& <LayerGrader as Upgrader<LayeredStream>>::upgrade_spec(&htg, leg, Ok(tun), htg2)
            &&& <LayerGrader as Downgrader<LayeredStream>>::downgrade_spec(
                &htg2,
                tun,
                Ok(leg2),
                htg3,
            )
            &&& exists|out: LayeredStream, tu2: LayerGrader|
                <LayerGrader as Upgrader<LayeredStream>>::upgrade_spec(&tu, leg2, Ok(out), tu2) && v
                    == HttpClientInnerStream::<CursorStream, LayerGrader, LayerGrader>::Case6(out)
        };
    let (out, tu2) = choose|out: LayeredStream, tu2: LayerGrader|
        <LayerGrader as Upgrader<LayeredStream>>::upgrade_spec(&tu, leg2, Ok(out), tu2) && v
            == HttpClientInnerStream::<CursorStream, LayerGrader, LayerGrader>::Case6(out);
    assert(leg2.layers@ =~= seq![httu.id]);
    assert(out.layers@ =~= seq![httu.id, tu.id]);
    assert(out.inner.trace@ == stream.trace@.push(httu.event_spec(false)).push(
        htg.event_spec(false),
    ).push(htg.event_spec(true)).push(tu.event_spec(false)));
}

} // verus!
