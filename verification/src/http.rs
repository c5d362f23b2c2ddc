//! The topology resolver: given a raw transport, an optional proxy
//! descriptor and an optional end-to-end encryption transformer, it performs
//! the one correct sequence of forward and reverse transitions and yields a
//! single tagged stream covering all six reachable connectivity topologies.

use vstd::prelude::*;

use crate::byte_stream::ByteStream;
use crate::errors::StreamError;
use crate::http_tunnel::HttpTunnelClientGrader;
use crate::tls::TlsClientUpgrader;
use crate::upgradable::{Upgrader, UpgradableAsyncStream};

verus! {

/// A forward-proxy descriptor: either a tunnel negotiated over a plain leg,
/// or a tunnel negotiated over an encrypted leg. The descriptor type is
/// closed: no other proxy kind can be expressed, so resolving any other kind
/// is rejected at compile time rather than at run time.
pub enum HttpClientProxyInner<HTTU, HTG> {
    /// A tunnel over a plain leg, carrying the tunnel transformer.
    Http(HTG),
    /// A tunnel over an encrypted leg, carrying the transformer that
    /// encrypts the leg to the proxy and the tunnel transformer.
    Https(HTTU, HTG),
}

/// The proxy descriptor handed to the resolver.
pub struct HttpClientProxy<HTTU, HTG> {
    pub inner: HttpClientProxyInner<HTTU, HTG>,
}

impl<HTTU, HTG> HttpClientProxy<HTTU, HTG> {
    /// A tunnel negotiated over a plain leg.
    pub fn http(http_tunnel_grader: HTG) -> (r: Self)
        ensures
            r.inner == HttpClientProxyInner::Http::<HTTU, HTG>(http_tunnel_grader),
    {
        HttpClientProxy { inner: HttpClientProxyInner::Http(http_tunnel_grader) }
    }

    /// A tunnel negotiated over an encrypted leg.
    pub fn https(tls_upgrader: HTTU, http_tunnel_grader: HTG) -> (r: Self)
        ensures
            r.inner == HttpClientProxyInner::Https::<HTTU, HTG>(tls_upgrader, http_tunnel_grader),
    {
        HttpClientProxy { inner: HttpClientProxyInner::Https(tls_upgrader, http_tunnel_grader) }
    }
}

/// The single result type of topology resolution: one tag per reachable
/// connectivity topology, each carrying the composite stream that was built.
/// The two last tags are reserved for proxy kinds that the closed descriptor
/// type cannot express; no runtime path constructs them.
pub enum HttpClientInnerStream<S, HTTU, TU> where
    HTTU: Upgrader<S>,
    TU: Upgrader<S> + Upgrader<<HTTU as Upgrader<S>>::Output>,
 {
    /// No proxy, no end-to-end encryption.
    Case1(S),
    /// No proxy, end-to-end encryption.
    Case2(<TU as Upgrader<S>>::Output),
    /// Plain tunnel, no end-to-end encryption.
    Case3(S),
    /// Plain tunnel, end-to-end encryption.
    Case4(<TU as Upgrader<S>>::Output),
    /// Encrypted tunnel, no end-to-end encryption.
    Case5(<HTTU as Upgrader<S>>::Output),
    /// Encrypted tunnel, end-to-end encryption.
    Case6(<TU as Upgrader<<HTTU as Upgrader<S>>::Output>>::Output),
    /// Reserved: a further proxy kind without end-to-end encryption.
    Case7,
    /// Reserved: a further proxy kind with end-to-end encryption.
    Case8,
}

impl<S, HTTU, TU> HttpClientInnerStream<S, HTTU, TU> where
    HTTU: TlsClientUpgrader<S>,
    TU: Upgrader<S> + TlsClientUpgrader<<HTTU as Upgrader<S>>::Output>,
 {
    pub fn is_case1(&self) -> (b: bool)
        ensures
            b == (self is Case1),
    {
        match self {
            HttpClientInnerStream::Case1(_) => true,
            _ => false,
        }
    }

    pub fn is_case2(&self) -> (b: bool)
        ensures
            b == (self is Case2),
    {
        match self {
            HttpClientInnerStream::Case2(_) => true,
            _ => false,
        }
    }

    pub fn is_case3(&self) -> (b: bool)
        ensures
            b == (self is Case3),
    {
        match self {
            HttpClientInnerStream::Case3(_) => true,
            _ => false,
        }
    }

    pub fn is_case4(&self) -> (b: bool)
        ensures
            b == (self is Case4),
    {
        match self {
            HttpClientInnerStream::Case4(_) => true,
            _ => false,
        }
    }

    pub fn is_case5(&self) -> (b: bool)
        ensures
            b == (self is Case5),
    {
        match self {
            HttpClientInnerStream::Case5(_) => true,
            _ => false,
        }
    }

    pub fn is_case6(&self) -> (b: bool)
        ensures
            b == (self is Case6),
    {
        match self {
            HttpClientInnerStream::Case6(_) => true,
            _ => false,
        }
    }

    /// Which tag resolution must yield for the given proxy and encryption
    /// descriptors.
    pub open spec fn case_of_spec<HTG>(
        proxy: Option<HttpClientProxy<HTTU, HTG>>,
        tls_upgrader: Option<TU>,
        v: Self,
    ) -> bool {
        match proxy {
            None => match tls_upgrader {
                None => v is Case1,
                Some(_) => v is Case2,
            },
            Some(p) => match p.inner {
                HttpClientProxyInner::Http(_) => match tls_upgrader {
                    None => v is Case3,
                    Some(_) => v is Case4,
                },
                HttpClientProxyInner::Https(_, _) => match tls_upgrader {
                    None => v is Case5,
                    Some(_) => v is Case6,
                },
            },
        }
    }

    /// Resolution without a proxy: the transport is either returned
    /// untouched, or forward-transitioned once through the end-to-end
    /// encryption transformer.
    pub open spec fn direct_spec(
        stream: S,
        tls_upgrader: Option<TU>,
        r: Result<Self, StreamError>,
    ) -> bool {
        match tls_upgrader {
            None => r == Ok::<Self, StreamError>(HttpClientInnerStream::Case1(stream)),
            Some(tu) => if !(<TU as Upgrader<S>>::upgrade_required_spec(&tu)) {
                r == Err::<Self, StreamError>(StreamError::UpgradeNotRequired)
            } else {
                match r {
                    Ok(v) => exists|out: <TU as Upgrader<S>>::Output, tu2: TU|
                        <TU as Upgrader<S>>::upgrade_spec(&tu, stream, Ok(out), tu2) && v
                            == HttpClientInnerStream::<S, HTTU, TU>::Case2(out),
                    Err(e) => exists|tu2: TU|
                        <TU as Upgrader<S>>::upgrade_spec(&tu, stream, Err(e), tu2),
                }
            },
        }
    }

    /// Resolution through a plain tunnel: the tunnel transformer is applied
    /// forward and then reversed, and the recovered transport is optionally
    /// forward-transitioned through the end-to-end encryption transformer.
    pub open spec fn plain_tunnel_spec<HTG: HttpTunnelClientGrader<S>>(
        stream: S,
        htg: HTG,
        tls_upgrader: Option<TU>,
        r: Result<Self, StreamError>,
    ) -> bool {
        match r {
            Ok(v) => <HTG as Upgrader<S>>::upgrade_required_spec(&htg) && exists|
                tun: <HTG as Upgrader<S>>::Output,
                htg2: HTG,
                s2: S,
                htg3: HTG,
            |
                {
                    &&& <HTG as Upgrader<S>>::upgrade_spec(&htg, stream, Ok(tun), htg2)
                    &&& <HTG as crate::gradable::Downgrader<S>>::downgrade_required_spec(&htg2)
                    &&& <HTG as crate::gradable::Downgrader<S>>::downgrade_spec(
                        &htg2,
                        tun,
                        Ok(s2),
                        htg3,
                    )
                    &&& match tls_upgrader {
                        None => v == HttpClientInnerStream::<S, HTTU, TU>::Case3(s2),
                        Some(tu) => <TU as Upgrader<S>>::upgrade_required_spec(&tu) && exists|
                            out: <TU as Upgrader<S>>::Output,
                            tu2: TU,
                        |
                            <TU as Upgrader<S>>::upgrade_spec(&tu, s2, Ok(out), tu2) && v
                                == HttpClientInnerStream::<S, HTTU, TU>::Case4(out),
                    }
                },
            Err(e) => {
                ||| (!(<HTG as Upgrader<S>>::upgrade_required_spec(&htg)) && e
                    == StreamError::UpgradeNotRequired)
                ||| (<HTG as Upgrader<S>>::upgrade_required_spec(&htg) && exists|htg2: HTG|
                    <HTG as Upgrader<S>>::upgrade_spec(&htg, stream, Err(e), htg2))
                ||| (exists|tun: <HTG as Upgrader<S>>::Output, htg2: HTG|
                    {
                        &&& <HTG as Upgrader<S>>::upgrade_required_spec(&htg)
                        &&& <HTG as Upgrader<S>>::upgrade_spec(&htg, stream, Ok(tun), htg2)
                        &&& !(<HTG as crate::gradable::Downgrader<S>>::downgrade_required_spec(
                            &htg2,
                        ))
                        &&& e == StreamError::DowngradeNotRequired
                    })
                ||| (exists|tun: <HTG as Upgrader<S>>::Output, htg2: HTG, htg3: HTG|
                    {
                        &&& <HTG as Upgrader<S>>::upgrade_required_spec(&htg)
                        &&& <HTG as Upgrader<S>>::upgrade_spec(&htg, stream, Ok(tun), htg2)
                        &&& <HTG as crate::gradable::Downgrader<S>>::downgrade_required_spec(&htg2)
                        &&& <HTG as crate::gradable::Downgrader<S>>::downgrade_spec(
                            &htg2,
                            tun,
                            Err(e),
                            htg3,
                        )
                    })
                ||| (exists|tun: <HTG as Upgrader<S>>::Output, htg2: HTG, s2: S, htg3: HTG|
                    {
                        &&& <HTG as Upgrader<S>>::upgrade_required_spec(&htg)
                        &&& <HTG as Upgrader<S>>::upgrade_spec(&htg, stream, Ok(tun), htg2)
                        &&& <HTG as crate::gradable::Downgrader<S>>::downgrade_required_spec(&htg2)
                        &&& <HTG as crate::gradable::Downgrader<S>>::downgrade_spec(
                            &htg2,
                            tun,
                            Ok(s2),
                            htg3,
                        )
                        &&& match tls_upgrader {
                            None => false,
                            Some(tu) => {
                                ||| (!(<TU as Upgrader<S>>::upgrade_required_spec(&tu)) && e
                                    == StreamError::UpgradeNotRequired)
                                ||| (<TU as Upgrader<S>>::upgrade_required_spec(&tu) && exists|
                                    tu2: TU,
                                |
                                    <TU as Upgrader<S>>::upgrade_spec(&tu, s2, Err(e), tu2))
                            },
                        }
                    })
            },
        }
    }

    /// Resolution through an encrypted tunnel: the leg to the proxy is
    /// encrypted first, the tunnel transformer is applied forward over that
    /// leg and then reversed, and the recovered leg is optionally
    /// forward-transitioned through the end-to-end encryption transformer.
    pub open spec fn tls_tunnel_spec<HTG: HttpTunnelClientGrader<<HTTU as Upgrader<S>>::Output>>(
        stream: S,
        httu: HTTU,
        htg: HTG,
        tls_upgrader: Option<TU>,
        r: Result<Self, StreamError>,
    ) -> bool {
        match r {
            Ok(v) => <HTTU as Upgrader<S>>::upgrade_required_spec(&httu) && exists|
                leg: <HTTU as Upgrader<S>>::Output,
                httu2: HTTU,
                tun: <HTG as Upgrader<<HTTU as Upgrader<S>>::Output>>::Output,
                htg2: HTG,
                leg2: <HTTU as Upgrader<S>>::Output,
                htg3: HTG,
            |
                {
                    &&& <HTTU as Upgrader<S>>::upgrade_spec(&httu, stream, Ok(leg), httu2)
                    &&& <HTG as Upgrader<<HTTU as Upgrader<S>>::Output>>::upgrade_required_spec(
                        &htg,
                    )
                    &&& <HTG as Upgrader<<HTTU as Upgrader<S>>::Output>>::upgrade_spec(
                        &htg,
                        leg,
                        Ok(tun),
                        htg2,
                    )
                    &&& <HTG as crate::gradable::Downgrader<
                        <HTTU as Upgrader<S>>::Output,
                    >>::downgrade_required_spec(&htg2)
                    &&& <HTG as crate::gradable::Downgrader<
                        <HTTU as Upgrader<S>>::Output,
                    >>::downgrade_spec(&htg2, tun, Ok(leg2), htg3)
                    &&& match tls_upgrader {
                        None => v == HttpClientInnerStream::<S, HTTU, TU>::Case5(leg2),
                        Some(tu) => <TU as Upgrader<
                            <HTTU as Upgrader<S>>::Output,
                        >>::upgrade_required_spec(&tu) && exists|
                            out: <TU as Upgrader<<HTTU as Upgrader<S>>::Output>>::Output,
                            tu2: TU,
                        |
                            <TU as Upgrader<<HTTU as Upgrader<S>>::Output>>::upgrade_spec(
                                &tu,
                                leg2,
                                Ok(out),
                                tu2,
                            ) && v == HttpClientInnerStream::<S, HTTU, TU>::Case6(out),
                    }
                },
            Err(e) => {
                ||| (!(<HTTU as Upgrader<S>>::upgrade_required_spec(&httu)) && e
                    == StreamError::UpgradeNotRequired)
                ||| (<HTTU as Upgrader<S>>::upgrade_required_spec(&httu) && exists|httu2: HTTU|
                    <HTTU as Upgrader<S>>::upgrade_spec(&httu, stream, Err(e), httu2))
                ||| (exists|leg: <HTTU as Upgrader<S>>::Output, httu2: HTTU|
                    {
                        &&& <HTTU as Upgrader<S>>::upgrade_required_spec(&httu)
                        &&& <HTTU as Upgrader<S>>::upgrade_spec(&httu, stream, Ok(leg), httu2)
                        &&& !(<HTG as Upgrader<
                            <HTTU as Upgrader<S>>::Output,
                        >>::upgrade_required_spec(&htg))
                        &&& e == StreamError::UpgradeNotRequired
                    })
                ||| (exists|leg: <HTTU as Upgrader<S>>::Output, httu2: HTTU, htg2: HTG|
                    {
                        &&& <HTTU as Upgrader<S>>::upgrade_required_spec(&httu)
                        &&& <HTTU as Upgrader<S>>::upgrade_spec(&httu, stream, Ok(leg), httu2)
                        &&& <HTG as Upgrader<<HTTU as Upgrader<S>>::Output>>::upgrade_required_spec(
                            &htg,
                        )
                        &&& <HTG as Upgrader<<HTTU as Upgrader<S>>::Output>>::upgrade_spec(
                            &htg,
                            leg,
                            Err(e),
                            htg2,
                        )
                    })
                ||| (exists|
                    leg: <HTTU as Upgrader<S>>::Output,
                    httu2: HTTU,
                    tun: <HTG as Upgrader<<HTTU as Upgrader<S>>::Output>>::Output,
                    htg2: HTG,
                |
                    {
                        &&& <HTTU as Upgrader<S>>::upgrade_required_spec(&httu)
                        &&& <HTTU as Upgrader<S>>::upgrade_spec(&httu, stream, Ok(leg), httu2)
                        &&& <HTG as Upgrader<<HTTU as Upgrader<S>>::Output>>::upgrade_required_spec(
                            &htg,
                        )
                        &&& <HTG as Upgrader<<HTTU as Upgrader<S>>::Output>>::upgrade_spec(
                            &htg,
                            leg,
                            Ok(tun),
                            htg2,
                        )
                        &&& !(<HTG as crate::gradable::Downgrader<
                            <HTTU as Upgrader<S>>::Output,
                        >>::downgrade_required_spec(&htg2))
                        &&& e == StreamError::DowngradeNotRequired
                    })
                ||| (exists|
                    leg: <HTTU as Upgrader<S>>::Output,
                    httu2: HTTU,
                    tun: <HTG as Upgrader<<HTTU as Upgrader<S>>::Output>>::Output,
                    htg2: HTG,
                    htg3: HTG,
                |
                    {
                        &&& <HTTU as Upgrader<S>>::upgrade_required_spec(&httu)
                        &&& <HTTU as Upgrader<S>>::upgrade_spec(&httu, stream, Ok(leg), httu2)
                        &&& <HTG as Upgrader<<HTTU as Upgrader<S>>::Output>>::upgrade_required_spec(
                            &htg,
                        )
                        &&& <HTG as Upgrader<<HTTU as Upgrader<S>>::Output>>::upgrade_spec(
                            &htg,
                            leg,
                            Ok(tun),
                            htg2,
                        )
                        &&& <HTG as crate::gradable::Downgrader<
                            <HTTU as Upgrader<S>>::Output,
                        >>::downgrade_required_spec(&htg2)
                        &&& <HTG as crate::gradable::Downgrader<
                            <HTTU as Upgrader<S>>::Output,
                        >>::downgrade_spec(&htg2, tun, Err(e), htg3)
                    })
                ||| (exists|
                    leg: <HTTU as Upgrader<S>>::Output,
                    httu2: HTTU,
                    tun: <HTG as Upgrader<<HTTU as Upgrader<S>>::Output>>::Output,
                    htg2: HTG,
                    leg2: <HTTU as Upgrader<S>>::Output,
                    htg3: HTG,
                |
                    {
                        &&& <HTTU as Upgrader<S>>::upgrade_required_spec(&httu)
                        &&& <HTTU as Upgrader<S>>::upgrade_spec(&httu, stream, Ok(leg), httu2)
                        &&& <HTG as Upgrader<<HTTU as Upgrader<S>>::Output>>::upgrade_required_spec(
                            &htg,
                        )
                        &&& <HTG as Upgrader<<HTTU as Upgrader<S>>::Output>>::upgrade_spec(
                            &htg,
                            leg,
                            Ok(tun),
                            htg2,
                        )
                        &&& <HTG as crate::gradable::Downgrader<
                            <HTTU as Upgrader<S>>::Output,
                        >>::downgrade_required_spec(&htg2)
                        &&& <HTG as crate::gradable::Downgrader<
                            <HTTU as Upgrader<S>>::Output,
                        >>::downgrade_spec(&htg2, tun, Ok(leg2), htg3)
                        &&& match tls_upgrader {
                            None => false,
                            Some(tu) => {
                                ||| (!(<TU as Upgrader<
                                    <HTTU as Upgrader<S>>::Output,
                                >>::upgrade_required_spec(&tu)) && e
                                    == StreamError::UpgradeNotRequired)
                                ||| (<TU as Upgrader<
                                    <HTTU as Upgrader<S>>::Output,
                                >>::upgrade_required_spec(&tu) && exists|tu2: TU|
                                    <TU as Upgrader<<HTTU as Upgrader<S>>::Output>>::upgrade_spec(
                                        &tu,
                                        leg2,
                                        Err(e),
                                        tu2,
                                    ))
                            },
                        }
                    })
            },
        }
    }

    /// Resolve the topology.
    ///
    /// The sequence of transitions is fixed by the descriptors alone: a
    /// plain tunnel is negotiated and immediately reversed back to a raw
    /// stream; an encrypted tunnel first encrypts the leg to the proxy; and
    /// end-to-end encryption, when requested, is always the last forward
    /// transition. Any transition failure aborts the whole resolution and
    /// surfaces the failing stage's error unchanged.
    pub fn new<HTG: HttpTunnelClientGrader<S> + HttpTunnelClientGrader<<HTTU as Upgrader<S>>::Output>>(
        stream: S,
        proxy: Option<HttpClientProxy<HTTU, HTG>>,
        tls_upgrader: Option<TU>,
    ) -> (r: Result<Self, StreamError>)
        ensures
            r matches Ok(v) ==> Self::case_of_spec(proxy, tls_upgrader, v),
            proxy is None ==> Self::direct_spec(stream, tls_upgrader, r),
            proxy matches Some(p) ==> p.inner matches HttpClientProxyInner::Http(htg)
                ==> Self::plain_tunnel_spec(stream, htg, tls_upgrader, r),
            proxy matches Some(p) ==> p.inner matches HttpClientProxyInner::Https(httu, htg)
                ==> Self::tls_tunnel_spec(stream, httu, htg, tls_upgrader, r),
    {
        match proxy {
            Some(p) => match p.inner {
                HttpClientProxyInner::Http(htg) => {
                    let mut s = UpgradableAsyncStream::new(stream, htg);
                    match s.upgrade() {
                        Ok(()) => (),
                        Err(e) => {
                            return Err(e);
                        },
                    }
                    match s.downgrade() {
                        Ok(()) => (),
                        Err(e) => {
                            return Err(e);
                        },
                    }
                    let stream = match s.try_into_stream() {
                        Ok(v) => v,
                        Err(_) => vstd::pervasive::unreached(),
                    };
                    match tls_upgrader {
                        Some(tu) => {
                            let mut s = UpgradableAsyncStream::new(stream, tu);
                            match s.upgrade() {
                                Ok(()) => (),
                                Err(e) => {
                                    return Err(e);
                                },
                            }
                            let out = match s.try_into_upgraded_stream() {
                                Ok(v) => v,
                                Err(_) => vstd::pervasive::unreached(),
                            };
                            Ok(HttpClientInnerStream::Case4(out))
                        },
                        None => Ok(HttpClientInnerStream::Case3(stream)),
                    }
                },
                HttpClientProxyInner::Https(httu, htg) => {
                    let mut s = UpgradableAsyncStream::new(stream, httu);
                    match s.upgrade() {
                        Ok(()) => (),
                        Err(e) => {
                            return Err(e);
                        },
                    }
                    let leg = match s.try_into_upgraded_stream() {
                        Ok(v) => v,
                        Err(_) => vstd::pervasive::unreached(),
                    };
                    let mut s = UpgradableAsyncStream::new(leg, htg);
                    match s.upgrade() {
                        Ok(()) => (),
                        Err(e) => {
                            return Err(e);
                        },
                    }
                    match s.downgrade() {
                        Ok(()) => (),
                        Err(e) => {
                            return Err(e);
                        },
                    }
                    let leg = match s.try_into_stream() {
                        Ok(v) => v,
                        Err(_) => vstd::pervasive::unreached(),
                    };
                    match tls_upgrader {
                        Some(tu) => {
                            let mut s = UpgradableAsyncStream::new(leg, tu);
                            match s.upgrade() {
                                Ok(()) => (),
                                Err(e) => {
                                    return Err(e);
                                },
                            }
                            let out = match s.try_into_upgraded_stream() {
                                Ok(v) => v,
                                Err(_) => vstd::pervasive::unreached(),
                            };
                            Ok(HttpClientInnerStream::Case6(out))
                        },
                        None => Ok(HttpClientInnerStream::Case5(leg)),
                    }
                },
            },
            None => match tls_upgrader {
                Some(tu) => {
                    let mut s = UpgradableAsyncStream::new(stream, tu);
                    match s.upgrade() {
                        Ok(()) => (),
                        Err(e) => {
                            return Err(e);
                        },
                    }
                    let out = match s.try_into_upgraded_stream() {
                        Ok(v) => v,
                        Err(_) => vstd::pervasive::unreached(),
                    };
                    Ok(HttpClientInnerStream::Case2(out))
                },
                None => Ok(HttpClientInnerStream::Case1(stream)),
            },
        }
    }
}

impl<S, HTTU, TU> ByteStream for HttpClientInnerStream<S, HTTU, TU> where
    S: ByteStream,
    HTTU: Upgrader<S>,
    <HTTU as Upgrader<S>>::Output: ByteStream,
    TU: Upgrader<S> + Upgrader<<HTTU as Upgrader<S>>::Output>,
    <TU as Upgrader<S>>::Output: ByteStream,
    <TU as Upgrader<<HTTU as Upgrader<S>>::Output>>::Output: ByteStream,
 {
    open spec fn contents(&self) -> Seq<u8> {
        match self {
            HttpClientInnerStream::Case1(s) => s.contents(),
            HttpClientInnerStream::Case2(s) => s.contents(),
            HttpClientInnerStream::Case3(s) => s.contents(),
            HttpClientInnerStream::Case4(s) => s.contents(),
            HttpClientInnerStream::Case5(s) => s.contents(),
            HttpClientInnerStream::Case6(s) => s.contents(),
            HttpClientInnerStream::Case7 => Seq::empty(),
            HttpClientInnerStream::Case8 => Seq::empty(),
        }
    }

    open spec fn position(&self) -> int {
        match self {
            HttpClientInnerStream::Case1(s) => s.position(),
            HttpClientInnerStream::Case2(s) => s.position(),
            HttpClientInnerStream::Case3(s) => s.position(),
            HttpClientInnerStream::Case4(s) => s.position(),
            HttpClientInnerStream::Case5(s) => s.position(),
            HttpClientInnerStream::Case6(s) => s.position(),
            HttpClientInnerStream::Case7 => 0,
            HttpClientInnerStream::Case8 => 0,
        }
    }

    open spec fn inv(&self) -> bool {
        match self {
            HttpClientInnerStream::Case1(s) => s.inv(),
            HttpClientInnerStream::Case2(s) => s.inv(),
            HttpClientInnerStream::Case3(s) => s.inv(),
            HttpClientInnerStream::Case4(s) => s.inv(),
            HttpClientInnerStream::Case5(s) => s.inv(),
            HttpClientInnerStream::Case6(s) => s.inv(),
            HttpClientInnerStream::Case7 => false,
            HttpClientInnerStream::Case8 => false,
        }
    }

    fn read(&mut self, buf: &mut Vec<u8>) -> (n: usize) {
        match self {
            HttpClientInnerStream::Case1(s) => s.read(buf),
            HttpClientInnerStream::Case2(s) => s.read(buf),
            HttpClientInnerStream::Case3(s) => s.read(buf),
            HttpClientInnerStream::Case4(s) => s.read(buf),
            HttpClientInnerStream::Case5(s) => s.read(buf),
            HttpClientInnerStream::Case6(s) => s.read(buf),
            HttpClientInnerStream::Case7 => vstd::pervasive::unreached(),
            HttpClientInnerStream::Case8 => vstd::pervasive::unreached(),
        }
    }

    fn write(&mut self, buf: &Vec<u8>) -> (n: usize) {
        match self {
            HttpClientInnerStream::Case1(s) => s.write(buf),
            HttpClientInnerStream::Case2(s) => s.write(buf),
            HttpClientInnerStream::Case3(s) => s.write(buf),
            HttpClientInnerStream::Case4(s) => s.write(buf),
            HttpClientInnerStream::Case5(s) => s.write(buf),
            HttpClientInnerStream::Case6(s) => s.write(buf),
            HttpClientInnerStream::Case7 => vstd::pervasive::unreached(),
            HttpClientInnerStream::Case8 => vstd::pervasive::unreached(),
        }
    }

    fn flush(&mut self) -> (r: Result<(), StreamError>) {
        match self {
            HttpClientInnerStream::Case1(s) => s.flush(),
            HttpClientInnerStream::Case2(s) => s.flush(),
            HttpClientInnerStream::Case3(s) => s.flush(),
            HttpClientInnerStream::Case4(s) => s.flush(),
            HttpClientInnerStream::Case5(s) => s.flush(),
            HttpClientInnerStream::Case6(s) => s.flush(),
            HttpClientInnerStream::Case7 => vstd::pervasive::unreached(),
            HttpClientInnerStream::Case8 => vstd::pervasive::unreached(),
        }
    }
}

} // verus!
