pub mod dns;
pub mod dns_pad;
pub mod xor;

pub use dns_pad::DnsPad;
pub use xor::{Xor, XorToken};

use vstd::prelude::*;

verus! {

/// Why a packet transform refused a packet.
#[derive(Debug, Clone, Copy, PartialEq, Eq, Structural)]
pub enum MethodError {
    /// Padding `n` bytes would not leave room in a buffer of `cap` bytes.
    PadOverflow { cap: usize, n: usize },
    /// A padded packet of `n` bytes is shorter than the DNS query.
    UnpadUnderflow { n: usize },
}

/// A packet transform that encodes the first `n` bytes of a buffer in place
/// and updates `n` to the length of the encoded packet.
pub trait MethodApply {
    /// What the caller must ensure: without it the transform would read or
    /// write past the buffer.
    spec fn apply_pre(&self, len: nat, n: nat) -> bool;

    /// On which buffers the transform succeeds.
    spec fn apply_ok(&self, len: nat, n: nat) -> bool;

    /// The buffer after a successful transform.
    spec fn applied_buf(&self, buf: Seq<u8>, n: nat) -> Seq<u8>;

    /// The packet length after a successful transform.
    spec fn applied_len(&self, n: nat) -> nat;

    fn apply(&self, buf: &mut [u8], n: &mut usize) -> (r: Result<(), MethodError>)
        requires
            self.apply_pre(old(buf)@.len(), *old(n) as nat),
        ensures
            r is Ok <==> self.apply_ok(old(buf)@.len(), *old(n) as nat),
            r is Ok ==> final(buf)@ == self.applied_buf(old(buf)@, *old(n) as nat)
                && *final(n) as nat == self.applied_len(*old(n) as nat),
            r is Err ==> final(buf)@ == old(buf)@ && *final(n) == *old(n),
    ;
}

/// The inverse of a [`MethodApply`] transform.
pub trait MethodUndo {
    spec fn undo_pre(&self, len: nat, n: nat) -> bool;

    spec fn undo_ok(&self, len: nat, n: nat) -> bool;

    spec fn undone_buf(&self, buf: Seq<u8>, n: nat) -> Seq<u8>;

    spec fn undone_len(&self, n: nat) -> nat;

    fn undo(&self, buf: &mut [u8], n: &mut usize) -> (r: Result<(), MethodError>)
        requires
            self.undo_pre(old(buf)@.len(), *old(n) as nat),
        ensures
            r is Ok <==> self.undo_ok(old(buf)@.len(), *old(n) as nat),
            r is Ok ==> final(buf)@ == self.undone_buf(old(buf)@, *old(n) as nat)
                && *final(n) as nat == self.undone_len(*old(n) as nat),
            r is Err ==> final(buf)@ == old(buf)@ && *final(n) == *old(n),
    ;
}

} // verus!

verus! {

use crate::error::InitError;
use crate::xor::xor_prefix;
use dns_pad::{padded, unpadded, DNS_QUERY_LEN};
use vstd::string::StrSliceExecFns;

/// How the relay disguises packets.
#[derive(Clone, Copy, Debug, PartialEq, Eq, Structural)]
pub enum Method {
    /// XOR with a token on both ends.
    Xor,
    /// Pad what goes out through the outbound socket, unpad what comes back.
    DnsPad,
    /// Unpad what goes out through the outbound socket, pad what comes back.
    DnsUnPad,
}

impl Default for Method {
    fn default() -> (r: Method)
        ensures
            r == Method::Xor,
    {
        Method::Xor
    }
}

/// The name by which a method is chosen on the command line.
pub open spec fn method_name(m: Method) -> Seq<char> {
    match m {
        Method::Xor => seq!['x', 'o', 'r'],
        Method::DnsPad => seq!['d', 'n', 's', 'p', 'a', 'd'],
        Method::DnsUnPad => seq!['d', 'n', 's', 'u', 'n', 'p', 'a', 'd'],
    }
}

/// The method that a name selects, if any.
pub open spec fn parse_method(s: Seq<char>) -> Result<Method, ()> {
    if s == method_name(Method::Xor) {
        Ok(Method::Xor)
    } else if s == method_name(Method::DnsPad) {
        Ok(Method::DnsPad)
    } else if s == method_name(Method::DnsUnPad) {
        Ok(Method::DnsUnPad)
    } else {
        Err(())
    }
}

/// The number under which a method is stored.
pub open spec fn method_index(m: Method) -> usize {
    match m {
        Method::Xor => 0,
        Method::DnsPad => 1,
        Method::DnsUnPad => 2,
    }
}

/// The method stored under a number below 3.
pub open spec fn method_at(i: usize) -> Method {
    if i == 0 {
        Method::Xor
    } else if i == 1 {
        Method::DnsPad
    } else {
        Method::DnsUnPad
    }
}

/// The method that the other end of the tunnel runs.
pub open spec fn peer(m: Method) -> Method {
    match m {
        Method::Xor => Method::Xor,
        Method::DnsPad => Method::DnsUnPad,
        Method::DnsUnPad => Method::DnsPad,
    }
}

/// Whether a DNS method pads (rather than unpads) a packet that arrived on
/// the given side: `DnsPad` pads what came in on the inbound socket,
/// `DnsUnPad` pads what came in on the outbound one.
pub open spec fn pads(m: Method, from_outbound: bool) -> bool {
    (m == Method::DnsPad) != from_outbound
}

/// Whether `run` encodes (rather than decodes) a packet: XOR always does,
/// a DNS method when it pads.
pub open spec fn encodes(m: Method, from_outbound: bool) -> bool {
    m == Method::Xor || pads(m, from_outbound)
}

/// What `run` needs so that it does not touch bytes past the buffer.
pub open spec fn run_pre(m: Method, from_outbound: bool, len: nat, n: nat) -> bool {
    match m {
        Method::Xor => n <= len,
        _ => pads(m, from_outbound) || n <= len,
    }
}

/// On which packets `run` succeeds.
pub open spec fn run_ok(m: Method, from_outbound: bool, len: nat, n: nat) -> bool {
    match m {
        Method::Xor => true,
        _ => if pads(m, from_outbound) {
            len > n + DNS_QUERY_LEN
        } else {
            n >= DNS_QUERY_LEN
        },
    }
}

/// The buffer after a successful `run`.
pub open spec fn run_buf(m: Method, token: u8, from_outbound: bool, buf: Seq<u8>, n: nat) -> Seq<u8> {
    match m {
        Method::Xor => xor_prefix(buf, n as int, token),
        _ => if pads(m, from_outbound) {
            padded(buf, n as int)
        } else {
            unpadded(buf, n as int)
        },
    }
}

/// The packet length after a successful `run`.
pub open spec fn run_len(m: Method, from_outbound: bool, n: nat) -> nat {
    match m {
        Method::Xor => n,
        _ => if pads(m, from_outbound) {
            n + DNS_QUERY_LEN as nat
        } else {
            (n - DNS_QUERY_LEN) as nat
        },
    }
}

/// The error of a failed `run`.
pub open spec fn run_err(m: Method, from_outbound: bool, len: usize, n: usize) -> MethodError {
    if pads(m, from_outbound) {
        MethodError::PadOverflow { cap: len, n: n }
    } else {
        MethodError::UnpadUnderflow { n: n }
    }
}

/// Whether two strings hold the same characters.
fn str_eq(a: &str, b: &str) -> (r: bool)
    ensures
        r == (a@ == b@),
{
    let len = a.unicode_len();
    if len != b.unicode_len() {
        return false;
    }
    let mut i: usize = 0;
    while i < len
        invariant
            len == a@.len(),
            len == b@.len(),
            i <= len,
            forall|j: int| 0 <= j < i ==> a@[j] == b@[j],
        decreases len - i,
    {
        if a.get_char(i) != b.get_char(i) {
            return false;
        }
        i = i + 1;
    }
    assert(a@ =~= b@);
    true
}

impl Method {
    /// The method's name.
    pub fn as_str(&self) -> (r: &'static str)
        ensures
            r@ == method_name(*self),
    {
        match self {
            Method::Xor => {
                proof { reveal_strlit("xor"); }
                assert("xor"@ =~= method_name(*self));
                "xor"
            },
            Method::DnsPad => {
                proof { reveal_strlit("dnspad"); }
                assert("dnspad"@ =~= method_name(*self));
                "dnspad"
            },
            Method::DnsUnPad => {
                proof { reveal_strlit("dnsunpad"); }
                assert("dnsunpad"@ =~= method_name(*self));
                "dnsunpad"
            },
        }
    }

    /// The method that a name selects: `xor`, `dnspad` or `dnsunpad`.
    pub fn from_str(s: &str) -> (r: Result<Method, ()>)
        ensures
            r == parse_method(s@),
    {
        if str_eq(s, Method::Xor.as_str()) {
            Ok(Method::Xor)
        } else if str_eq(s, Method::DnsPad.as_str()) {
            Ok(Method::DnsPad)
        } else if str_eq(s, Method::DnsUnPad.as_str()) {
            Ok(Method::DnsUnPad)
        } else {
            Err(())
        }
    }

    /// The number under which the method is stored.
    pub fn index(self) -> (r: usize)
        ensures
            r == method_index(self),
            r < 3,
    {
        match self {
            Method::Xor => 0,
            Method::DnsPad => 1,
            Method::DnsUnPad => 2,
        }
    }

    /// The method stored under `i`.
    pub fn at(i: usize) -> (r: Method)
        requires
            i < 3,
        ensures
            r == method_at(i),
    {
        if i == 0 {
            Method::Xor
        } else if i == 1 {
            Method::DnsPad
        } else {
            Method::DnsUnPad
        }
    }

    /// Transforms a packet of `n` bytes that arrived on the inbound side
    /// (`from_outbound` false) or the outbound side, before it is sent on
    /// through the other socket.
    pub fn run(self, token: &XorToken, from_outbound: bool, buf: &mut [u8], n: &mut usize) -> (r: Result<(), MethodError>)
        requires
            run_pre(self, from_outbound, old(buf)@.len(), *old(n) as nat),
            self == Method::Xor ==> token@ is Some,
        ensures
            r is Ok <==> run_ok(self, from_outbound, old(buf)@.len(), *old(n) as nat),
            r is Ok ==> final(buf)@ == run_buf(self, token@->0, from_outbound, old(buf)@, *old(n) as nat)
                && *final(n) as nat == run_len(self, from_outbound, *old(n) as nat),
            r is Err ==> r == Err::<(), MethodError>(run_err(self, from_outbound, old(buf)@.len() as usize, *old(n)))
                && final(buf)@ == old(buf)@ && *final(n) == *old(n),
            self == Method::Xor ==> r is Ok,
            (self == Method::DnsPad && !from_outbound) || (self == Method::DnsUnPad && from_outbound)
                ==> (r is Ok <==> old(buf)@.len() > *old(n) + DNS_QUERY_LEN),
            (self == Method::DnsPad && from_outbound) || (self == Method::DnsUnPad && !from_outbound)
                ==> (r is Ok <==> *old(n) >= DNS_QUERY_LEN),
    {
        match self {
            Method::DnsPad | Method::DnsUnPad => {
                let apply = matches!(self, Method::DnsPad) != from_outbound;
                if apply {
                    DnsPad.apply(buf, n)
                } else {
                    DnsPad.undo(buf, n)
                }
            },
            Method::Xor => token.xor().apply(buf, n),
        }
    }
}

/// A stored method number that means "not set".
pub const SENTINEL: usize = usize::MAX;

/// The write-once cell that holds the method in use.
pub struct MethodState {
    current: usize,
}

impl MethodState {
    #[verifier::type_invariant]
    spec fn inv(self) -> bool {
        self.current == SENTINEL || self.current < 3
    }
}

impl View for MethodState {
    type V = Option<Method>;

    closed spec fn view(&self) -> Option<Method> {
        if self.current == SENTINEL {
            None
        } else {
            Some(method_at(self.current))
        }
    }
}

impl MethodState {
    /// An empty cell.
    pub fn new() -> (r: MethodState)
        ensures
            r@ is None,
    {
        MethodState { current: SENTINEL }
    }

    /// Sets the method; a cell that holds one already is left as it is.
    pub fn init(&mut self, method: Method) -> (r: Result<(), InitError>)
        ensures
            r is Ok <==> old(self)@ is None,
            r is Ok ==> final(self)@ == Some(method),
            r is Err ==> r == Err::<(), InitError>(InitError::AlreadyExists) && final(self)@ == old(self)@,
    {
        if self.current != SENTINEL {
            return Err(InitError::AlreadyExists);
        }
        let i = method.index();
        proof { lemma_method_index_roundtrip(method); }
        self.current = i;
        Ok(())
    }

    /// Whether a method was set.
    pub fn is_set(&self) -> (r: bool)
        ensures
            r == self@ is Some,
    {
        self.current != SENTINEL
    }

    /// The method that was set.
    pub fn current(&self) -> (r: Method)
        requires
            self@ is Some,
        ensures
            self@ == Some(r),
    {
        proof { use_type_invariant(self); }
        Method::at(self.current)
    }
}

/// What one end of the tunnel encodes, the other end (which runs the peer
/// method) decodes on the same side: the payload and its length come back.
/// For XOR the whole buffer comes back; a padded frame starts with the DNS
/// query.
pub proof fn lemma_tunnel_roundtrip(m: Method, token: u8, from_outbound: bool, buf: Seq<u8>, n: nat)
    requires
        encodes(m, from_outbound),
        run_pre(m, from_outbound, buf.len(), n),
        run_ok(m, from_outbound, buf.len(), n),
    ensures
        ({
            let b2 = run_buf(m, token, from_outbound, buf, n);
            let n2 = run_len(m, from_outbound, n);
            &&& b2.len() == buf.len()
            &&& m != Method::Xor ==> b2.subrange(0, DNS_QUERY_LEN as int) == dns_pad::dns_query()
            &&& !encodes(peer(m), from_outbound) || m == Method::Xor
            &&& run_pre(peer(m), from_outbound, b2.len(), n2)
            &&& run_ok(peer(m), from_outbound, b2.len(), n2)
            &&& run_len(peer(m), from_outbound, n2) == n
            &&& run_buf(peer(m), token, from_outbound, b2, n2).subrange(0, n as int) == buf.subrange(0, n as int)
            &&& m == Method::Xor ==> run_buf(peer(m), token, from_outbound, b2, n2) == buf
        }),
{
    if m == Method::Xor {
        crate::xor::lemma_xor_involution(buf, n as int, token);
    } else {
        dns_pad::lemma_pad_roundtrip(buf, n as int);
    }
}

/// XOR does not depend on the side a packet arrived on: `run` with XOR
/// needs, succeeds on, and does on either side what [`Xor::apply`] with
/// the same token does.
pub proof fn lemma_xor_ignores_side(token: u8, buf: Seq<u8>, n: nat)
    ensures
        forall|from_outbound: bool| #![auto]
            run_pre(Method::Xor, from_outbound, buf.len(), n) == (Xor { token }).apply_pre(buf.len(), n)
            && run_ok(Method::Xor, from_outbound, buf.len(), n) == (Xor { token }).apply_ok(buf.len(), n)
            && run_buf(Method::Xor, token, from_outbound, buf, n) == (Xor { token }).applied_buf(buf, n)
            && run_len(Method::Xor, from_outbound, n) == (Xor { token }).applied_len(n),
{
}

/// XOR never refuses a packet. A DNS method pads what `DnsPad` receives on
/// the inbound side and `DnsUnPad` on the outbound side, and that succeeds
/// exactly when the buffer is longer than the packet and the 56-byte frame
/// together; the other direction unpads, and succeeds exactly when the
/// packet holds at least the frame.
pub proof fn lemma_run_ok_room(m: Method, from_outbound: bool, len: nat, n: nat)
    ensures
        m == Method::Xor ==> run_ok(m, from_outbound, len, n),
        (m == Method::DnsPad && !from_outbound) || (m == Method::DnsUnPad && from_outbound)
            ==> (run_ok(m, from_outbound, len, n) <==> len > n + 56)
                && run_len(m, from_outbound, n) == n + 56,
        (m == Method::DnsPad && from_outbound) || (m == Method::DnsUnPad && !from_outbound)
            ==> (run_ok(m, from_outbound, len, n) <==> n >= 56)
                && (n >= 56 ==> run_len(m, from_outbound, n) == n - 56),
{
}

/// A method survives being stored as a number.
pub proof fn lemma_method_index_roundtrip(m: Method)
    ensures
        method_index(m) < 3,
        method_at(method_index(m)) == m,
{
}

/// A method's name selects that method.
pub proof fn lemma_method_name_roundtrip(m: Method)
    ensures
        parse_method(method_name(m)) == Ok::<Method, ()>(m),
{
    assert(method_name(Method::Xor) != method_name(Method::DnsPad)) by {
        assert(method_name(Method::Xor).len() != method_name(Method::DnsPad).len());
    }
    assert(method_name(Method::Xor) != method_name(Method::DnsUnPad)) by {
        assert(method_name(Method::Xor).len() != method_name(Method::DnsUnPad).len());
    }
    assert(method_name(Method::DnsPad) != method_name(Method::DnsUnPad)) by {
        assert(method_name(Method::DnsPad).len() != method_name(Method::DnsUnPad).len());
    }
}

} // verus!
