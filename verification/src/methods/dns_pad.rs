use vstd::prelude::*;

use super::dns::{dns_pad, dns_unpad};
use super::{MethodApply, MethodError, MethodUndo};

verus! {

/// Length of the DNS message header.
pub const HEADER_LEN: usize = 12;

/// Length of the encoded name `root-servers.net`: a length byte and 12
/// bytes, a length byte and 3 bytes, and the terminating zero.
pub const NAME_LEN: usize = 18;

/// Length of one question: the name, its type and its class.
pub const Q_LEN: usize = NAME_LEN + 2 + 2;

/// Length of the DNS query that frames every padded packet.
pub const DNS_QUERY_LEN: usize = HEADER_LEN + Q_LEN * 2;

/// A standard query (ID 0x0721, flags 0x0110: recursion desired and
/// checking disabled) that asks twice for the
/// NS records of `root-servers.net`.
pub const DNS_QUERY: [u8; DNS_QUERY_LEN] = [
    0x07, 0x21, 0x01, 0x10, 0x00, 0x02, 0x00, 0x00, 0x00, 0x00, 0x00, 0x00,
    0x0c, 0x72, 0x6f, 0x6f, 0x74, 0x2d, 0x73, 0x65, 0x72, 0x76, 0x65, 0x72, 0x73,
    0x03, 0x6e, 0x65, 0x74, 0x00, 0x00, 0x02, 0x00, 0x01,
    0x0c, 0x72, 0x6f, 0x6f, 0x74, 0x2d, 0x73, 0x65, 0x72, 0x76, 0x65, 0x72, 0x73,
    0x03, 0x6e, 0x65, 0x74, 0x00, 0x00, 0x02, 0x00, 0x01,
];

/// A big-endian 16-bit field.
pub open spec fn be16(v: u16) -> Seq<u8> {
    seq![(v / 256) as u8, (v % 256) as u8]
}

/// A DNS header with the given ID, flags and question count, and no
/// answer, authority or additional records.
pub open spec fn dns_header(id: u16, flags: u16, qdcount: u16) -> Seq<u8> {
    be16(id) + be16(flags) + be16(qdcount) + be16(0) + be16(0) + be16(0)
}

/// One label of a DNS name: its length, then its bytes.
pub open spec fn dns_label(bytes: Seq<u8>) -> Seq<u8> {
    seq![bytes.len() as u8] + bytes
}

/// The ASCII bytes of `root-servers`.
pub open spec fn root_servers() -> Seq<u8> {
    seq![0x72u8, 0x6f, 0x6f, 0x74, 0x2d, 0x73, 0x65, 0x72, 0x76, 0x65, 0x72, 0x73]
}

/// The ASCII bytes of `net`.
pub open spec fn net() -> Seq<u8> {
    seq![0x6eu8, 0x65, 0x74]
}

/// A question for the NS records (type 2) of `root-servers.net` in class IN (1).
pub open spec fn dns_question() -> Seq<u8> {
    dns_label(root_servers()) + dns_label(net()) + seq![0u8] + be16(2) + be16(1)
}

/// The frame that padding puts in front of a packet.
pub open spec fn dns_query() -> Seq<u8> {
    dns_header(0x0721, 0x0110, 2) + dns_question() + dns_question()
}

/// `DNS_QUERY` holds the header and the two questions.
pub proof fn lemma_dns_query_bytes()
    ensures
        DNS_QUERY@ == dns_query(),
        dns_query().len() == DNS_QUERY_LEN,
        dns_question().len() == Q_LEN,
{
    assert(DNS_QUERY@ =~= dns_query());
}

/// Whether a payload limit leaves room for the DNS frame.
pub fn payload_bound_check(payload_max: usize) -> (r: bool)
    ensures
        r == (payload_max > DNS_QUERY_LEN),
{
    payload_max > DNS_QUERY_LEN
}

/// The packet after padding: the DNS query, the `n` payload bytes, and the
/// rest of the buffer as it was.
pub open spec fn padded(buf: Seq<u8>, n: int) -> Seq<u8> {
    dns_query() + buf.subrange(0, n) + buf.subrange(n + DNS_QUERY_LEN, buf.len() as int)
}

/// The packet after unpadding: the payload that followed the DNS query,
/// then the bytes of the buffer from `n - DNS_QUERY_LEN` on as they were.
pub open spec fn unpadded(buf: Seq<u8>, n: int) -> Seq<u8> {
    buf.subrange(DNS_QUERY_LEN as int, n) + buf.subrange(n - DNS_QUERY_LEN, buf.len() as int)
}

/// Frames a packet behind a fixed DNS query, and takes the frame off again.
/// `local` -> apply -> peer, padded; padded -> undo -> `remote`; and back.
pub struct DnsPad;

impl DnsPad {
    /// Whether a buffer of `buf_len` bytes has room to pad `n` bytes.
    pub fn check_apply(buf_len: usize, n: usize) -> (r: bool)
        ensures
            r == (buf_len > n + DNS_QUERY_LEN),
    {
        buf_len > DNS_QUERY_LEN && n < buf_len - DNS_QUERY_LEN
    }

    /// Whether `n` bytes are enough to hold the DNS frame.
    pub fn check_undo(n: usize) -> (r: bool)
        ensures
            r == (n >= DNS_QUERY_LEN),
    {
        n >= DNS_QUERY_LEN
    }
}

impl MethodApply for DnsPad {
    open spec fn apply_pre(&self, len: nat, n: nat) -> bool {
        true
    }

    open spec fn apply_ok(&self, len: nat, n: nat) -> bool {
        len > n + DNS_QUERY_LEN
    }

    open spec fn applied_buf(&self, buf: Seq<u8>, n: nat) -> Seq<u8> {
        padded(buf, n as int)
    }

    open spec fn applied_len(&self, n: nat) -> nat {
        n + DNS_QUERY_LEN as nat
    }

    fn apply(&self, buf: &mut [u8], n: &mut usize) -> (r: Result<(), MethodError>)
        ensures
            r is Ok <==> old(buf)@.len() > *old(n) + DNS_QUERY_LEN,
            r is Ok ==> *final(n) == *old(n) + DNS_QUERY_LEN
                && final(buf)@.subrange(0, DNS_QUERY_LEN as int) == DNS_QUERY@
                && final(buf)@.subrange(DNS_QUERY_LEN as int, *final(n) as int) == old(buf)@.subrange(0, *old(n) as int),
            r is Err ==> r == Err::<(), MethodError>(
                MethodError::PadOverflow { cap: old(buf)@.len() as usize, n: *old(n) },
            ),
    {
        let len = *n;
        if !Self::check_apply(buf.len(), len) {
            return Err(MethodError::PadOverflow { cap: buf.len(), n: len });
        }
        let ghost b0 = buf@;
        let _ = dns_pad(buf, len);
        *n = len + DNS_QUERY_LEN;
        proof {
            lemma_dns_query_bytes();
            lemma_padded_parts(b0, len as int);
        }
        Ok(())
    }
}

impl MethodUndo for DnsPad {
    open spec fn undo_pre(&self, len: nat, n: nat) -> bool {
        n <= len
    }

    open spec fn undo_ok(&self, len: nat, n: nat) -> bool {
        n >= DNS_QUERY_LEN
    }

    open spec fn undone_buf(&self, buf: Seq<u8>, n: nat) -> Seq<u8> {
        unpadded(buf, n as int)
    }

    open spec fn undone_len(&self, n: nat) -> nat {
        (n - DNS_QUERY_LEN) as nat
    }

    fn undo(&self, buf: &mut [u8], n: &mut usize) -> (r: Result<(), MethodError>)
        ensures
            r is Ok <==> *old(n) >= DNS_QUERY_LEN,
            r is Err ==> r == Err::<(), MethodError>(MethodError::UnpadUnderflow { n: *old(n) }),
    {
        if !Self::check_undo(*n) {
            return Err(MethodError::UnpadUnderflow { n: *n });
        }
        let len = *n - DNS_QUERY_LEN;
        let _ = dns_unpad(buf, len);
        *n = len;
        Ok(())
    }
}

/// Padding puts the DNS query in front, and unpadding the padded packet
/// gives back the payload and its length.
pub proof fn lemma_pad_roundtrip(buf: Seq<u8>, n: int)
    requires
        0 <= n,
        buf.len() > n + DNS_QUERY_LEN,
    ensures
        padded(buf, n).len() == buf.len(),
        padded(buf, n).subrange(0, DNS_QUERY_LEN as int) == dns_query(),
        unpadded(padded(buf, n), n + DNS_QUERY_LEN).len() == buf.len(),
        unpadded(padded(buf, n), n + DNS_QUERY_LEN).subrange(0, n) == buf.subrange(0, n),
{
    lemma_dns_query_bytes();
    let p = padded(buf, n);
    assert(p.subrange(0, DNS_QUERY_LEN as int) =~= dns_query());
    assert(unpadded(p, n + DNS_QUERY_LEN).subrange(0, n) =~= buf.subrange(0, n));
}

/// A padded buffer holds the DNS query, then the payload.
pub proof fn lemma_padded_parts(buf: Seq<u8>, n: int)
    requires
        0 <= n,
        buf.len() > n + DNS_QUERY_LEN,
    ensures
        padded(buf, n).len() == buf.len(),
        padded(buf, n).subrange(0, DNS_QUERY_LEN as int) == DNS_QUERY@,
        padded(buf, n).subrange(DNS_QUERY_LEN as int, n + DNS_QUERY_LEN) == buf.subrange(0, n),
{
    lemma_dns_query_bytes();
    let p = padded(buf, n);
    assert(p.subrange(0, DNS_QUERY_LEN as int) =~= dns_query());
    assert(p.subrange(DNS_QUERY_LEN as int, n + DNS_QUERY_LEN) =~= buf.subrange(0, n));
}

/// Padding succeeds exactly when the buffer has room for the DNS frame
/// after the payload, that is when it is longer than the payload and the
/// 56-byte frame together; unpadding succeeds exactly when the packet is
/// at least as long as the frame.
pub proof fn lemma_pad_room(len: nat, n: nat)
    ensures
        DnsPad.apply_ok(len, n) <==> len > n + 56,
        DnsPad.undo_ok(len, n) <==> n >= 56,
        DnsPad.apply_pre(len, n),
        DnsPad.applied_len(n) == n + 56,
        n >= 56 ==> DnsPad.undone_len(n) == n - 56,
{
}

} // verus!
