use core::marker::PhantomData;

use vstd::prelude::*;

use crate::local::{coherent, next_version, refreshed, seen_at, Endpoint, LocalAddrState, Session};
use crate::methods::{run_buf, run_err, run_len, run_ok, run_pre, Method, MethodError, XorToken};
use crate::socket::Socket;

verus! {

/// Which socket a receiving task listens on.
#[derive(Clone, Copy, Debug, PartialEq, Eq, Structural)]
pub enum Modes {
    /// The socket that clients send to.
    Inbound,
    /// The socket connected to the remote end.
    Outbound,
}

/// The socket that a task of the given mode receives on.
pub open spec fn socket_of(m: Modes) -> Socket {
    match m {
        Modes::Inbound => Socket::Inbound,
        Modes::Outbound => Socket::Outbound,
    }
}

/// A receiving side, fixed at compile time.
pub trait Mode {
    spec fn kind() -> Modes;

    fn mode() -> (r: Modes)
        ensures
            r == Self::kind(),
    ;

    fn socket() -> (s: Socket)
        ensures
            s == socket_of(Self::kind()),
            Self::kind() == Modes::Inbound ==> s == Socket::Inbound,
            Self::kind() == Modes::Outbound ==> s == Socket::Outbound,
    ;
}

/// Receives from clients.
pub struct Inbound;

impl Mode for Inbound {
    open spec fn kind() -> Modes {
        Modes::Inbound
    }

    fn mode() -> (r: Modes) {
        Modes::Inbound
    }

    fn socket() -> (s: Socket)
        ensures
            s == Socket::Inbound,
    {
        Socket::Inbound
    }
}

/// Receives from the remote end.
pub struct Outbound;

impl Mode for Outbound {
    open spec fn kind() -> Modes {
        Modes::Outbound
    }

    fn mode() -> (r: Modes) {
        Modes::Outbound
    }

    fn socket() -> (s: Socket)
        ensures
            s == Socket::Outbound,
    {
        Socket::Outbound
    }
}

/// What becomes of a received packet before it is transformed.
#[derive(Clone, Copy, Debug, PartialEq, Eq, Structural)]
pub enum Admission {
    /// Forward it.
    Pass,
    /// Forward it; its sender has just become the client, so the watchdog
    /// is woken and the client logged.
    Connected,
    /// Drop it: it came from `current` while `local` is the client.
    Mismatch { local: Endpoint, current: Endpoint },
}

/// Whether the packet is dropped.
pub open spec fn drops(a: Admission) -> bool {
    a is Mismatch
}

/// What an inbound packet from `addr` does to the shared session and to
/// the task's cached client address, and what becomes of it. The first
/// packet while no client is connected makes its sender the client; after
/// that, packets from the cached client address refresh its last sighting
/// and the rest are dropped.
pub open spec fn inbound_step(
    s_connected: bool,
    local_version: usize,
    local_addr: Endpoint,
    cache: LocalAddrState,
    addr: Endpoint,
) -> (LocalAddrState, Admission) {
    if !s_connected {
        let v = next_version(local_version);
        let c = if cache.version != v { LocalAddrState { version: v, addr: addr } } else { cache };
        (c, Admission::Connected)
    } else {
        let c = if cache.version != local_version {
            LocalAddrState { version: local_version, addr: local_addr }
        } else {
            cache
        };
        if addr == c.addr {
            (c, Admission::Pass)
        } else {
            (c, Admission::Mismatch { local: c.addr, current: addr })
        }
    }
}

/// The kinds of socket error that the loops tell apart.
#[derive(Clone, Copy, Debug, PartialEq, Eq, Structural)]
pub enum IoErrorKind {
    /// The socket's buffer is full (sending) or empty (receiving).
    WouldBlock,
    /// A signal interrupted the call.
    Interrupted,
    /// Anything else.
    Other,
}

/// What the sending side does after a failed send.
#[derive(Clone, Copy, Debug, PartialEq, Eq, Structural)]
pub enum SendErrorAction {
    /// Drop the packet, with a rate-limited warning.
    Drop,
    /// Send it again.
    Retry,
    /// Ask every task to stop; the request that raised the flag reports the error.
    Stop,
}

/// What the receiving side does after a failed receive.
#[derive(Clone, Copy, Debug, PartialEq, Eq, Structural)]
pub enum RecvErrorAction {
    /// Nothing more to read: wait until the socket is readable again.
    Wait,
    /// Receive again.
    Retry,
    /// Report the error and end the task.
    Stop,
}

/// How a failed send is handled.
pub fn on_send_error(kind: IoErrorKind) -> (r: SendErrorAction)
    ensures
        r == match kind {
            IoErrorKind::WouldBlock => SendErrorAction::Drop,
            IoErrorKind::Interrupted => SendErrorAction::Retry,
            IoErrorKind::Other => SendErrorAction::Stop,
        },
{
    match kind {
        IoErrorKind::WouldBlock => SendErrorAction::Drop,
        IoErrorKind::Interrupted => SendErrorAction::Retry,
        IoErrorKind::Other => SendErrorAction::Stop,
    }
}

/// How a failed receive is handled.
pub fn on_recv_error(kind: IoErrorKind) -> (r: RecvErrorAction)
    ensures
        r == match kind {
            IoErrorKind::WouldBlock => RecvErrorAction::Wait,
            IoErrorKind::Interrupted => RecvErrorAction::Retry,
            IoErrorKind::Other => RecvErrorAction::Stop,
        },
{
    match kind {
        IoErrorKind::WouldBlock => RecvErrorAction::Wait,
        IoErrorKind::Interrupted => RecvErrorAction::Retry,
        IoErrorKind::Other => RecvErrorAction::Stop,
    }
}

/// The receive-and-forward loop of one side, whose decisions stand here;
/// the sockets, the waiting and the logging stand outside.
pub struct RecvSend<M: Mode> {
    _marker: PhantomData<M>,
}

impl<M: Mode> RecvSend<M> {
    pub fn new() -> Self {
        RecvSend { _marker: PhantomData }
    }

    /// Whether this side receives from the remote end.
    pub fn from_outbound() -> (r: bool)
        ensures
            r == (M::kind() == Modes::Outbound),
    {
        match M::mode() {
            Modes::Outbound => true,
            Modes::Inbound => false,
        }
    }

    /// Transforms a received packet of `n` bytes before it goes out through
    /// the other socket.
    pub fn transform(&self, method: Method, token: &XorToken, buf: &mut [u8], n: &mut usize) -> (r: Result<(), MethodError>)
        requires
            run_pre(method, M::kind() == Modes::Outbound, old(buf)@.len(), *old(n) as nat),
            method == Method::Xor ==> token@ is Some,
        ensures
            r is Ok <==> run_ok(method, M::kind() == Modes::Outbound, old(buf)@.len(), *old(n) as nat),
            r is Ok ==> final(buf)@ == run_buf(method, token@->0, M::kind() == Modes::Outbound, old(buf)@, *old(n) as nat)
                && *final(n) as nat == run_len(method, M::kind() == Modes::Outbound, *old(n) as nat),
            r is Err ==> r == Err::<(), MethodError>(run_err(method, M::kind() == Modes::Outbound, old(buf)@.len() as usize, *old(n)))
                && final(buf)@ == old(buf)@ && *final(n) == *old(n),
    {
        let from_outbound = Self::from_outbound();
        method.run(token, from_outbound, buf, n)
    }

    /// Decides on a packet received from `addr` at `now_ms`.
    pub fn additional(
        &self,
        addr: Endpoint,
        session: &mut Session,
        local_addr_state: &mut LocalAddrState,
        now_ms: u64,
    ) -> (r: Admission)
        ensures
            M::kind() == Modes::Inbound ==> inbound_effect(*old(session), *final(session), *old(local_addr_state), *final(local_addr_state), addr, now_ms, r),
            M::kind() == Modes::Outbound ==> r == Admission::Pass
                && *final(local_addr_state) == refreshed(*old(local_addr_state), old(session).local)
                && final(session).ctx@ == old(session).ctx@
                && final(session).local == old(session).local
                && final(session).seen@ == old(session).seen@,
    {
        match M::mode() {
            Modes::Inbound => self.inbound_additional(addr, session, local_addr_state, now_ms),
            Modes::Outbound => {
                let _ = self.outbound_additional(session, local_addr_state);
                Admission::Pass
            },
        }
    }

    /// Decides on a packet from a client.
    pub fn inbound_additional(
        &self,
        addr: Endpoint,
        session: &mut Session,
        local_addr_state: &mut LocalAddrState,
        now_ms: u64,
    ) -> (r: Admission)
        ensures
            inbound_effect(*old(session), *final(session), *old(local_addr_state), *final(local_addr_state), addr, now_ms, r),
            old(session).ctx@ && r == Admission::Pass ==> final(session).seen@.interval_ms == old(session).seen@.interval_ms
                && final(session).seen@.last_ms == if now_ms > old(session).seen@.last_ms + old(session).seen@.interval_ms {
                    now_ms
                } else {
                    old(session).seen@.last_ms
                },
    {
        if !session.ctx.is_connected() {
            let _ = session.ctx.connect(&mut session.local, &mut session.seen, addr, now_ms);
            let _ = session.local.check_and_update_state(local_addr_state);
            return Admission::Connected;
        }
        let _ = session.local.check_and_update_state(local_addr_state);
        if addr == local_addr_state.addr() {
            session.seen.now(now_ms);
            return Admission::Pass;
        }
        Self::mismatch(local_addr_state.addr(), addr)
    }

    /// Brings the cached client address up to date for a packet from the
    /// remote end; such packets are never dropped.
    pub fn outbound_additional(&self, session: &Session, local_addr_state: &mut LocalAddrState) -> (r: bool)
        ensures
            !r,
            *final(local_addr_state) == refreshed(*old(local_addr_state), session.local),
    {
        let _ = session.local.check_and_update_state(local_addr_state);
        false
    }

    /// A packet from someone other than the client.
    fn mismatch(local: Endpoint, addr: Endpoint) -> (r: Admission)
        ensures
            r == (Admission::Mismatch { local: local, current: addr }),
    {
        Admission::Mismatch { local: local, current: addr }
    }
}

/// What [`RecvSend::inbound_additional`] does: the cache and verdict of
/// [`inbound_step`]; a new client is stored and seen; a packet from the
/// client marks it seen; otherwise the session is unchanged.
pub open spec fn inbound_effect(
    s0: Session,
    s1: Session,
    c0: LocalAddrState,
    c1: LocalAddrState,
    addr: Endpoint,
    now_ms: u64,
    r: Admission,
) -> bool {
    let (c, a) = inbound_step(s0.ctx@, s0.local.spec_version(), s0.local.spec_addr(), c0, addr);
    &&& c1 == c
    &&& r == a
    &&& s1.ctx@
    &&& !s0.ctx@ ==> s1.local.spec_addr() == addr
        && s1.local.spec_version() == next_version(s0.local.spec_version())
        && s1.seen@ == seen_at(s0.seen@, now_ms)
    &&& s0.ctx@ ==> s1.local == s0.local
    &&& s0.ctx@ && r == Admission::Pass ==> s1.seen@ == seen_at(s0.seen@, now_ms)
    &&& s0.ctx@ && r != Admission::Pass ==> s1.seen@ == s0.seen@
}

/// While a client is connected and the task's cache is coherent, exactly
/// the client's packets pass, and everyone else's are dropped; the first
/// packet with no client connected makes its sender the client.
pub proof fn lemma_only_client_passes(
    s_connected: bool,
    local_version: usize,
    local_addr: Endpoint,
    cache: LocalAddrState,
    addr: Endpoint,
)
    requires
        cache.version == local_version ==> cache.addr == local_addr,
    ensures
        ({
            let (c, a) = inbound_step(s_connected, local_version, local_addr, cache, addr);
            &&& !s_connected ==> a == Admission::Connected && !drops(a)
            &&& !s_connected && cache.version != next_version(local_version) ==> c.addr == addr
            &&& s_connected ==> (a == Admission::Pass <==> addr == local_addr)
            &&& s_connected ==> (drops(a) <==> addr != local_addr)
            &&& s_connected ==> c.version == local_version && c.addr == local_addr
        }),
{
}

/// The inbound task receives on the clients' socket and the outbound task
/// on the socket connected to the remote end.
pub proof fn lemma_mode_sockets()
    ensures
        Inbound::kind() == Modes::Inbound,
        Outbound::kind() == Modes::Outbound,
        socket_of(Modes::Inbound) == Socket::Inbound,
        socket_of(Modes::Outbound) == Socket::Outbound,
        socket_of(Modes::Inbound) != socket_of(Modes::Outbound),
{
}

/// A packet that passes while a client is connected records a sighting at
/// `now_ms` whenever more than the interval has gone by since the last
/// recorded one, and leaves the record alone otherwise. When the cache was
/// coherent and the packet came from the client, it passes; once recorded,
/// the silence that the watchdog measures later is counted from `now_ms`.
pub proof fn lemma_pass_records_sighting(
    s0: Session,
    s1: Session,
    c0: LocalAddrState,
    c1: LocalAddrState,
    addr: Endpoint,
    now_ms: u64,
    r: Admission,
    later_ms: u64,
)
    requires
        inbound_effect(s0, s1, c0, c1, addr, now_ms, r),
        s0.ctx@,
    ensures
        coherent(c0, s0.local) && addr == s0.local.spec_addr() ==> r == Admission::Pass,
        r == Admission::Pass ==> addr == c1.addr && s1.ctx@,
        r == Admission::Pass ==> s1.seen@.interval_ms == s0.seen@.interval_ms
            && s1.seen@.last_ms == if now_ms > s0.seen@.last_ms + s0.seen@.interval_ms { now_ms } else { s0.seen@.last_ms },
        r == Admission::Pass && now_ms > s0.seen@.last_ms + s0.seen@.interval_ms && later_ms >= now_ms
            ==> s1.seen.elapsed_spec(later_ms) == later_ms - now_ms,
        r != Admission::Pass ==> s1.seen@ == s0.seen@,
{
}

} // verus!
