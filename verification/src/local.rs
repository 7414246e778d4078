use vstd::prelude::*;

verus! {

/// A UDP endpoint as the relay compares and stores it: an IPv4 address
/// (`v6` false, the address in the low 32 bits of `ip`) or an IPv6 one,
/// with its port, and for IPv6 its flow label and scope.
#[derive(Clone, Copy, Debug, PartialEq, Eq, Structural)]
pub struct Endpoint {
    pub v6: bool,
    pub ip: u128,
    pub port: u16,
    pub flowinfo: u32,
    pub scope_id: u32,
}

/// `0.0.0.0:0`, the address before any client connected.
pub open spec fn null_endpoint() -> Endpoint {
    Endpoint { v6: false, ip: 0, port: 0, flowinfo: 0, scope_id: 0 }
}

impl Endpoint {
    /// `0.0.0.0:0`.
    pub fn null() -> (r: Endpoint)
        ensures
            r == null_endpoint(),
    {
        Endpoint { v6: false, ip: 0, port: 0, flowinfo: 0, scope_id: 0 }
    }
}

/// The version that follows `v`; it wraps like an atomic counter.
pub open spec fn next_version(v: usize) -> usize {
    if v == usize::MAX { 0 } else { (v + 1) as usize }
}

/// The version after `k` stores, starting from version `v`.
pub open spec fn version_after(v: usize, k: nat) -> usize
    decreases k,
{
    if k == 0 {
        v
    } else {
        next_version(version_after(v, (k - 1) as nat))
    }
}

/// Each store adds one to the version, wrapping past `usize::MAX` like the
/// atomic counter: after `k` stores it is `v + k` modulo `usize::MAX + 1`
/// (and simply `v + k` while that does not pass `usize::MAX`).
pub proof fn lemma_version_after(v: usize, k: nat)
    ensures
        version_after(v, k) as int == (v + k) % (usize::MAX as int + 1),
        v + k <= usize::MAX ==> version_after(v, k) == v + k,
    decreases k,
{
    let m = usize::MAX as int + 1;
    if k == 0 {
        vstd::arithmetic::div_mod::lemma_small_mod(v as nat, m as nat);
    } else {
        lemma_version_after(v, (k - 1) as nat);
        let a = version_after(v, (k - 1) as nat);
        assert(a as int == (v + k - 1) % m);
        vstd::arithmetic::div_mod::lemma_add_mod_noop(v + k - 1, 1, m);
        vstd::arithmetic::div_mod::lemma_small_mod(1nat, m as nat);
        if a == usize::MAX {
            vstd::arithmetic::div_mod::lemma_mod_self_0(m);
        } else {
            vstd::arithmetic::div_mod::lemma_small_mod((a + 1) as nat, m as nat);
        }
        if v + k <= usize::MAX {
            vstd::arithmetic::div_mod::lemma_small_mod((v + k) as nat, m as nat);
        }
    }
}

/// The client's address, with a version that changes on every store so
/// that tasks can tell when their cached copy is stale.
pub struct LocalAddr {
    addr: Endpoint,
    version: usize,
}

impl LocalAddr {
    pub closed spec fn spec_addr(&self) -> Endpoint {
        self.addr
    }

    pub closed spec fn spec_version(&self) -> usize {
        self.version
    }

    /// No client yet: the null address at version 0.
    pub fn new() -> (r: LocalAddr)
        ensures
            r.spec_addr() == null_endpoint(),
            r.spec_version() == 0,
    {
        LocalAddr { addr: Endpoint::null(), version: 0 }
    }

    /// The current version.
    pub fn version(&self) -> (r: usize)
        ensures
            r == self.spec_version(),
    {
        self.version
    }

    /// Brings a cached version up to date; returns `false` when it already was.
    pub fn check_and_update(&self, ver: &mut usize) -> (r: bool)
        ensures
            r == (*old(ver) != self.spec_version()),
            *final(ver) == self.spec_version(),
    {
        let glob_ver = self.version();
        if *ver != glob_ver {
            *ver = glob_ver;
            true
        } else {
            false
        }
    }

    /// Brings a task's cached copy of the address up to date; returns
    /// `false` when its version already was.
    pub fn check_and_update_state(&self, state: &mut LocalAddrState) -> (r: bool)
        ensures
            r == (old(state).version != self.spec_version()),
            *final(state) == refreshed(*old(state), *self),
    {
        if self.check_and_update(&mut state.version) {
            state.addr = self.current();
            true
        } else {
            false
        }
    }

    /// The current address.
    pub fn current(&self) -> (r: Endpoint)
        ensures
            r == self.spec_addr(),
    {
        self.addr
    }

    /// Stores a new address under the next version.
    pub fn set(&mut self, addr: Endpoint)
        ensures
            final(self).spec_addr() == addr,
            final(self).spec_version() == next_version(old(self).spec_version()),
    {
        self.addr = addr;
        self.version = self.version.wrapping_add(1);
    }
}

/// A task's cached copy of the client address and the version it was read at.
#[derive(Clone, Copy, Debug, PartialEq, Eq, Structural)]
pub struct LocalAddrState {
    pub version: usize,
    pub addr: Endpoint,
}

impl LocalAddrState {
    /// The copy that matches a fresh [`LocalAddr`].
    pub fn new() -> (r: LocalAddrState)
        ensures
            r.version == 0,
            r.addr == null_endpoint(),
    {
        LocalAddrState { version: 0, addr: Endpoint::null() }
    }

    /// The cached address.
    pub fn addr(&self) -> (r: Endpoint)
        ensures
            r == self.addr,
    {
        self.addr
    }
}

/// The cache after it is brought up to date.
pub open spec fn refreshed(state: LocalAddrState, local: LocalAddr) -> LocalAddrState {
    if state.version != local.spec_version() {
        LocalAddrState { version: local.spec_version(), addr: local.spec_addr() }
    } else {
        state
    }
}

/// A cache is coherent when, at the current version, it holds the current address.
pub open spec fn coherent(state: LocalAddrState, local: LocalAddr) -> bool {
    state.version == local.spec_version() ==> state.addr == local.spec_addr()
}

/// Bringing a coherent cache up to date gives the current address, and it
/// stays coherent.
pub proof fn lemma_refresh_coherent(state: LocalAddrState, local: LocalAddr)
    requires
        coherent(state, local),
    ensures
        refreshed(state, local).addr == local.spec_addr(),
        refreshed(state, local).version == local.spec_version(),
        coherent(refreshed(state, local), local),
{
}

/// Whether a client is connected.
pub struct ConnectCtx {
    connected: bool,
}

impl View for ConnectCtx {
    type V = bool;

    closed spec fn view(&self) -> bool {
        self.connected
    }
}

impl ConnectCtx {
    /// No client.
    pub fn new() -> (r: ConnectCtx)
        ensures
            !r@,
    {
        ConnectCtx { connected: false }
    }

    /// Whether a client is connected.
    pub fn is_connected(&self) -> (r: bool)
        ensures
            r == self@,
    {
        self.connected
    }

    /// Forgets the client.
    pub fn disconnect(&mut self)
        ensures
            !final(self)@,
    {
        self.connected = false;
    }

    /// Marks a client connected; `true` only if none was.
    pub fn try_connect(&mut self) -> (r: bool)
        ensures
            r == !old(self)@,
            final(self)@,
    {
        if self.connected {
            false
        } else {
            self.connected = true;
            true
        }
    }

    /// Takes `addr` as the client if none is connected: stores its address
    /// and marks it seen at `now_ms`. Returns `true` when it did, and the
    /// caller then wakes the watchdog and logs the new client.
    pub fn connect(&mut self, local: &mut LocalAddr, seen: &mut LastSeen, addr: Endpoint, now_ms: u64) -> (r: bool)
        ensures
            r == !old(self)@,
            final(self)@,
            r ==> final(local).spec_addr() == addr
                && final(local).spec_version() == next_version(old(local).spec_version())
                && final(seen)@ == seen_at(old(seen)@, now_ms),
            !r ==> *final(local) == *old(local) && *final(seen) == *old(seen),
    {
        if self.try_connect() {
            local.set(addr);
            seen.now(now_ms);
            true
        } else {
            false
        }
    }
}

/// The interval, in milliseconds, within which a repeated sighting of the
/// client is not recorded.
pub const CORASETIME_UPDATE: u64 = 100;

/// When the client was last seen, in milliseconds since the relay started,
/// and how far apart two recorded sightings must be.
#[derive(Clone, Copy, Debug, PartialEq, Eq, Structural)]
pub struct LastSeenView {
    pub last_ms: u64,
    pub interval_ms: u64,
}

/// The record after the client is seen at `now_ms`: a sighting within the
/// interval of the last recorded one is not recorded.
pub open spec fn seen_at(v: LastSeenView, now_ms: u64) -> LastSeenView {
    if now_ms > v.last_ms + v.interval_ms {
        LastSeenView { last_ms: now_ms, interval_ms: v.interval_ms }
    } else {
        v
    }
}

/// When the client was last seen.
pub struct LastSeen {
    last_ms: u64,
    interval_ms: u64,
}

impl View for LastSeen {
    type V = LastSeenView;

    closed spec fn view(&self) -> LastSeenView {
        LastSeenView { last_ms: self.last_ms, interval_ms: self.interval_ms }
    }
}

impl LastSeen {
    /// Never seen, with the default interval.
    pub fn new() -> (r: LastSeen)
        ensures
            r@ == (LastSeenView { last_ms: 0, interval_ms: CORASETIME_UPDATE }),
    {
        LastSeen { last_ms: 0, interval_ms: CORASETIME_UPDATE }
    }

    /// Records that the client was seen at `now_ms`.
    pub fn now(&mut self, now_ms: u64)
        ensures
            final(self)@ == seen_at(old(self)@, now_ms),
    {
        if now_ms > self.last_ms && now_ms - self.last_ms > self.interval_ms {
            self.last_ms = now_ms;
        }
    }

    /// Milliseconds since the last recorded sighting, or 0.
    pub fn elapsed(&self, now_ms: u64) -> (r: u64)
        ensures
            r == if now_ms >= self@.last_ms { (now_ms - self@.last_ms) as u64 } else { 0 },
    {
        now_ms.saturating_sub(self.last_ms)
    }

    /// Widens the interval to at least `interval_ms`.
    pub fn raise_interval(&mut self, interval_ms: u64)
        ensures
            final(self)@.last_ms == old(self)@.last_ms,
            final(self)@.interval_ms == if interval_ms > old(self)@.interval_ms { interval_ms } else { old(self)@.interval_ms },
    {
        if interval_ms > self.interval_ms {
            self.interval_ms = interval_ms;
        }
    }
}

/// A recorded sighting never moves back in time.
pub proof fn lemma_seen_monotone(v: LastSeenView, now_ms: u64)
    ensures
        seen_at(v, now_ms).last_ms >= v.last_ms,
        seen_at(v, now_ms).interval_ms == v.interval_ms,
        seen_at(seen_at(v, now_ms), now_ms) == seen_at(v, now_ms),
{
}

/// The state that the receiving tasks share: whether a client is
/// connected, its address, and when it was last seen.
pub struct Session {
    pub ctx: ConnectCtx,
    pub local: LocalAddr,
    pub seen: LastSeen,
}

impl Session {
    /// No client yet.
    pub fn new() -> (r: Session)
        ensures
            !r.ctx@,
            r.local.spec_addr() == null_endpoint(),
            r.local.spec_version() == 0,
            r.seen@ == (LastSeenView { last_ms: 0, interval_ms: CORASETIME_UPDATE }),
    {
        Session { ctx: ConnectCtx::new(), local: LocalAddr::new(), seen: LastSeen::new() }
    }
}

/// The thread that drops a client that has been silent too long.
pub struct WatchDog;

impl WatchDog {
    /// The interval between recorded sightings that suits a watchdog that
    /// wakes every `park_ms` milliseconds: half of it, rounded up.
    pub fn update_interval(park_ms: u64) -> (r: u64)
        ensures
            r == (park_ms + 1) / 2,
    {
        park_ms / 2 + park_ms % 2
    }

    /// Makes sightings at least half a wake-up period apart.
    pub fn configure(seen: &mut LastSeen, park_ms: u64)
        ensures
            final(seen)@.last_ms == old(seen)@.last_ms,
            final(seen)@.interval_ms == if (park_ms + 1) / 2 > old(seen)@.interval_ms { ((park_ms + 1) / 2) as u64 } else { old(seen)@.interval_ms },
    {
        let i = Self::update_interval(park_ms);
        seen.raise_interval(i);
    }

    /// One wake-up of the watchdog at `now_ms`: when the client has not
    /// been seen for `timeout_ms`, it is disconnected and its address is
    /// returned for the log.
    pub fn check(session: &mut Session, now_ms: u64, timeout_ms: u64) -> (r: Option<Endpoint>)
        ensures
            r is Some <==> old(session).seen.elapsed_spec(now_ms) >= timeout_ms,
            r is Some <==> (if now_ms >= old(session).seen@.last_ms { now_ms - old(session).seen@.last_ms } else { 0 }) >= timeout_ms,
            r is Some ==> r == Some(old(session).local.spec_addr()) && !final(session).ctx@,
            r is None ==> final(session).ctx@ == old(session).ctx@,
            final(session).local == old(session).local,
            final(session).seen == old(session).seen,
    {
        if session.seen.elapsed(now_ms) < timeout_ms {
            return None;
        }
        let addr = session.local.current();
        session.ctx.disconnect();
        Some(addr)
    }
}

impl LastSeen {
    /// Milliseconds since the last recorded sighting, or 0.
    pub open spec fn elapsed_spec(&self, now_ms: u64) -> u64 {
        if now_ms >= self@.last_ms { (now_ms - self@.last_ms) as u64 } else { 0 }
    }
}

/// The silence that the watchdog measures is the time since the last
/// recorded sighting, with no upper limit, and 0 for a sighting that lies
/// ahead; for a positive timeout the client is dropped exactly when the
/// timeout has run out since it was last seen.
pub proof fn lemma_silence(seen: LastSeen, now_ms: u64, timeout_ms: u64)
    ensures
        seen.elapsed_spec(now_ms) == if now_ms >= seen@.last_ms { now_ms - seen@.last_ms } else { 0 },
        timeout_ms > 0 ==> (seen.elapsed_spec(now_ms) >= timeout_ms <==> now_ms >= seen@.last_ms + timeout_ms),
        now_ms <= seen@.last_ms ==> seen.elapsed_spec(now_ms) == 0,
{
}

} // verus!
