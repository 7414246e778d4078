use vstd::prelude::*;
use vstd::string::StrSliceExecFns;

use crate::methods::dns_pad::DNS_QUERY_LEN;
use crate::methods::{method_name, parse_method, Method};

verus! {

/// The largest link MTU that the relay accepts.
pub const LINK_MTU_MAX: usize = 65535;

pub const UDP_HEADER: usize = 8;

pub const IPV6_HEADER: usize = 40;

/// What the UDP and IPv6 headers take of a link MTU.
pub const LINK_PAYLOAD_OFFSET: usize = UDP_HEADER + IPV6_HEADER;

pub const DEFAULT_MTU: usize = 1500;

/// How many buffers are allocated when `-b` is not given.
pub const DEFAULT_BUFFER_LIMIT: usize = 48;

/// The value of a hexadecimal digit, or `None`.
pub open spec fn hex_digit(c: char) -> Option<nat> {
    if '0' <= c && c <= '9' {
        Some((c as nat - '0' as nat) as nat)
    } else if 'a' <= c && c <= 'f' {
        Some((c as nat - 'a' as nat + 10) as nat)
    } else if 'A' <= c && c <= 'F' {
        Some((c as nat - 'A' as nat + 10) as nat)
    } else {
        None
    }
}

/// Whether every character is a hexadecimal digit.
pub open spec fn all_hex(s: Seq<char>) -> bool {
    forall|i: int| 0 <= i < s.len() ==> #[trigger] hex_digit(s[i]) is Some
}

/// The number that hexadecimal digits denote.
pub open spec fn hex_num(s: Seq<char>) -> nat
    decreases s.len(),
{
    if s.len() == 0 {
        0
    } else {
        hex_num(s.drop_last()) * 16 + match hex_digit(s.last()) {
            Some(d) => d,
            None => 0,
        }
    }
}

/// A byte written in hexadecimal as `u8::from_str_radix(s, 16)` reads it:
/// an optional `+`, then at least one hexadecimal digit, with a value
/// that fits in a byte.
pub open spec fn parse_hex_u8(s: Seq<char>) -> Option<u8> {
    let digits = if s.len() > 0 && s[0] == '+' { s.drop_first() } else { s };
    if digits.len() > 0 && all_hex(digits) && hex_num(digits) <= 255 {
        Some(hex_num(digits) as u8)
    } else {
        None
    }
}

/// A token given as `0x` followed by a hexadecimal byte, e.g. `0xFF`.
pub open spec fn parse_token_spec(s: Seq<char>) -> Option<u8> {
    if s.len() >= 2 && s[0] == '0' && s[1] == 'x' {
        parse_hex_u8(s.skip(2))
    } else {
        None
    }
}

/// The value of a hexadecimal digit.
fn hex_digit_value(c: char) -> (r: Option<u8>)
    ensures
        r is Some <==> hex_digit(c) is Some,
        r is Some ==> r->0 as nat == hex_digit(c)->0 && r->0 < 16,
{
    if '0' <= c && c <= '9' {
        Some((c as u32 - '0' as u32) as u8)
    } else if 'a' <= c && c <= 'f' {
        Some((c as u32 - 'a' as u32 + 10) as u8)
    } else if 'A' <= c && c <= 'F' {
        Some((c as u32 - 'A' as u32 + 10) as u8)
    } else {
        None
    }
}

/// Reads a token written as `0x` and a hexadecimal byte.
pub fn parse_token(s: &str) -> (r: Option<u8>)
    ensures
        r == parse_token_spec(s@),
{
    let len = s.unicode_len();
    if len < 2 || s.get_char(0) != '0' || s.get_char(1) != 'x' {
        return None;
    }
    let mut start: usize = 2;
    if len > 2 && s.get_char(2) == '+' {
        start = 3;
    }
    let ghost rest = s@.skip(2);
    let ghost digits = s@.skip(start as int);
    assert(digits =~= if rest.len() > 0 && rest[0] == '+' { rest.drop_first() } else { rest });
    if start == len {
        return None;
    }
    // every character must be a digit
    let mut i: usize = start;
    while i < len
        invariant
            len == s@.len(),
            2 <= start <= i <= len,
            digits == s@.skip(start as int),
            rest == s@.skip(2),
            s@[0] == '0' && s@[1] == 'x',
            digits == if rest.len() > 0 && rest[0] == '+' { rest.drop_first() } else { rest },
            forall|j: int| 0 <= j < i - start ==> #[trigger] hex_digit(digits[j]) is Some,
        decreases len - i,
    {
        let c = s.get_char(i);
        assert(digits[i - start] == c);
        if hex_digit_value(c).is_none() {
            assert(!all_hex(digits));
            assert(parse_hex_u8(rest) is None);
            return None;
        }
        i = i + 1;
    }
    assert(all_hex(digits));
    // the value, held at 256 once it is known to be too large
    let mut acc: u32 = 0;
    let mut i: usize = start;
    while i < len
        invariant
            len == s@.len(),
            2 <= start <= i <= len,
            digits == s@.skip(start as int),
            rest == s@.skip(2),
            s@[0] == '0' && s@[1] == 'x',
            digits == if rest.len() > 0 && rest[0] == '+' { rest.drop_first() } else { rest },
            all_hex(digits),
            acc as nat == if hex_num(digits.take(i - start)) < 256 { hex_num(digits.take(i - start)) } else { 256 },
        decreases len - i,
    {
        let d = hex_digit_value(s.get_char(i)).unwrap();
        proof {
            let t = digits.take(i - start + 1);
            assert(t.drop_last() =~= digits.take(i - start));
            assert(t.last() == digits[i - start]);
            assert(hex_digit(digits[i - start]) is Some);
        }
        if acc >= 256 {
            acc = 256;
        } else {
            let v = acc * 16 + d as u32;
            acc = if v >= 256 { 256 } else { v };
        }
        i = i + 1;
    }
    assert(digits.take(len - start) =~= digits);
    if acc <= 255 {
        Some(acc as u8)
    } else {
        None
    }
}

/// Why the command line was refused.
#[derive(Debug, Clone, Copy, PartialEq, Eq, Structural)]
pub enum ArgError {
    InvalidArgument,
}

/// What the command line sets up: the method, the XOR token when the
/// method is XOR, how large a received payload may be, and how many
/// buffers to allocate.
#[derive(Debug, Clone, Copy, PartialEq, Eq, Structural)]
pub struct Plan {
    pub method: Method,
    pub token: Option<u8>,
    pub payload_max: usize,
    pub buffer_limit: usize,
}

/// The payload that a link MTU leaves once the headers are taken off.
pub open spec fn link_payload(mtu: usize) -> usize {
    if mtu >= LINK_PAYLOAD_OFFSET { (mtu - LINK_PAYLOAD_OFFSET) as usize } else { 0 }
}

/// The plan for the given options, or `None` when they are invalid: the
/// MTU (1500 when not given) may not exceed [`LINK_MTU_MAX`]; the method
/// (XOR when not given) must be named; XOR needs a token; padding needs a
/// payload longer than the DNS frame, and grows each buffer by the frame.
pub open spec fn plan_spec(
    mtu: Option<usize>,
    buffer_limit: Option<usize>,
    method: Option<Seq<char>>,
    token: Option<Seq<char>>,
) -> Option<Plan> {
    let mtu = match mtu { Some(m) => m, None => DEFAULT_MTU };
    let limit = match buffer_limit { Some(b) => b, None => DEFAULT_BUFFER_LIMIT };
    let payload = link_payload(mtu);
    let m = match method { Some(s) => parse_method(s), None => Ok(Method::Xor) };
    if mtu > LINK_MTU_MAX {
        None
    } else {
        match m {
            Err(_) => None,
            Ok(Method::Xor) => match token {
                Some(t) => match parse_token_spec(t) {
                    Some(v) => Some(Plan { method: Method::Xor, token: Some(v), payload_max: payload, buffer_limit: limit }),
                    None => None,
                },
                None => None,
            },
            Ok(Method::DnsPad) => if payload > DNS_QUERY_LEN {
                Some(Plan { method: Method::DnsPad, token: None, payload_max: (payload + DNS_QUERY_LEN) as usize, buffer_limit: limit })
            } else {
                None
            },
            Ok(Method::DnsUnPad) => Some(Plan { method: Method::DnsUnPad, token: None, payload_max: payload, buffer_limit: limit }),
        }
    }
}

/// Checks the command-line options and works out the plan.
pub fn plan(
    mtu: Option<usize>,
    buffer_limit: Option<usize>,
    method: Option<&str>,
    token: Option<&str>,
) -> (r: Result<Plan, ArgError>)
    ensures
        r is Ok <==> plan_spec(mtu, buffer_limit, opt_view(method), opt_view(token)) is Some,
        r is Ok ==> r == Ok::<Plan, ArgError>(plan_spec(mtu, buffer_limit, opt_view(method), opt_view(token))->0),
        r is Err ==> r == Err::<Plan, ArgError>(ArgError::InvalidArgument),
        r is Ok ==> r->Ok_0.payload_max == ({
            let m = match mtu { Some(m) => m, None => 1500usize };
            let p = if m >= 48 { m - 48 } else { 0 };
            if r->Ok_0.method == Method::DnsPad { p + 56 } else { p }
        }),
        r is Ok ==> r->Ok_0.buffer_limit == match buffer_limit { Some(b) => b, None => 48usize },
        r is Ok ==> (r->Ok_0.method == Method::Xor <==> r->Ok_0.token is Some),
{
    let mtu = match mtu {
        Some(m) => m,
        None => DEFAULT_MTU,
    };
    if mtu > LINK_MTU_MAX {
        return Err(ArgError::InvalidArgument);
    }
    let payload = mtu.saturating_sub(LINK_PAYLOAD_OFFSET);
    let limit = match buffer_limit {
        Some(b) => b,
        None => DEFAULT_BUFFER_LIMIT,
    };
    let m = match method {
        Some(s) => match Method::from_str(s) {
            Ok(m) => m,
            Err(_) => return Err(ArgError::InvalidArgument),
        },
        None => Method::default(),
    };
    match m {
        Method::Xor => {
            let t = match token {
                Some(t) => parse_token(t),
                None => None,
            };
            match t {
                Some(v) => Ok(Plan { method: Method::Xor, token: Some(v), payload_max: payload, buffer_limit: limit }),
                None => Err(ArgError::InvalidArgument),
            }
        },
        Method::DnsPad => {
            if !crate::methods::dns::bound_check(payload) {
                return Err(ArgError::InvalidArgument);
            }
            Ok(Plan { method: Method::DnsPad, token: None, payload_max: payload + DNS_QUERY_LEN, buffer_limit: limit })
        },
        Method::DnsUnPad => Ok(Plan { method: Method::DnsUnPad, token: None, payload_max: payload, buffer_limit: limit }),
    }
}

/// The view of an optional string.
pub open spec fn opt_view(s: Option<&str>) -> Option<Seq<char>> {
    match s {
        Some(t) => Some(t@),
        None => None,
    }
}

/// An accepted plan takes its payload size from the given MTU (1500 when
/// none is given) less the 48 bytes of the UDP and IPv6 headers, or 0 when
/// the MTU is smaller; padding adds the 56 bytes of the DNS frame. The
/// buffer count is the given one (48 when none is given), and only XOR
/// carries a token, the one written after `0x`. An MTU above 65535, an
/// unknown method, XOR without a valid token, and padding with no more
/// payload than the frame are refused.
pub proof fn lemma_plan_sizes(
    mtu: Option<usize>,
    buffer_limit: Option<usize>,
    method: Option<Seq<char>>,
    token: Option<Seq<char>>,
)
    ensures
        ({
            let m = match mtu { Some(m) => m, None => 1500usize };
            let p = if m >= 48 { m - 48 } else { 0 };
            let r = plan_spec(mtu, buffer_limit, method, token);
            &&& r is Some ==> r->0.payload_max == if r->0.method == Method::DnsPad { p + 56 } else { p }
            &&& r is Some ==> r->0.buffer_limit == match buffer_limit { Some(b) => b, None => 48usize }
            &&& r is Some && r->0.method == Method::Xor ==> token is Some && r->0.token == parse_token_spec(token->0)
            &&& r is Some && r->0.method != Method::Xor ==> r->0.token is None
            &&& m > 65535 ==> r is None
            &&& m <= 65535 && method is None ==> (r is Some <==> token is Some && parse_token_spec(token->0) is Some)
            &&& m <= 65535 && method is Some && method->0 == seq!['d', 'n', 's', 'u', 'n', 'p', 'a', 'd'] ==> r is Some
            &&& m <= 65535 && method is Some && method->0 == seq!['d', 'n', 's', 'p', 'a', 'd'] ==> (r is Some <==> p > 56)
            &&& method is Some && parse_method(method->0) is Err ==> r is None
        }),
{
    let dp = seq!['d', 'n', 's', 'p', 'a', 'd'];
    let du = seq!['d', 'n', 's', 'u', 'n', 'p', 'a', 'd'];
    assert(dp =~= method_name(Method::DnsPad));
    assert(du =~= method_name(Method::DnsUnPad));
    crate::methods::lemma_method_name_roundtrip(Method::DnsPad);
    crate::methods::lemma_method_name_roundtrip(Method::DnsUnPad);
}

/// How many worker threads to run beside the main thread: one fewer than
/// the available parallelism, and at least one.
pub fn worker_threads(available: usize) -> (r: usize)
    ensures
        r == if available >= 2 { available - 1 } else { 1 },
{
    let w = available.saturating_sub(1);
    if w < 1 { 1 } else { w }
}

} // verus!
