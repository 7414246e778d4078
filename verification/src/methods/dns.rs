use vstd::prelude::*;

use super::dns_pad::{dns_query, lemma_dns_query_bytes, DNS_QUERY, DNS_QUERY_LEN};

verus! {

/// Whether a payload limit leaves room for the DNS frame.
pub fn bound_check(payload_max: usize) -> (r: bool)
    ensures
        r == (payload_max > DNS_QUERY_LEN),
{
    payload_max > DNS_QUERY_LEN
}

/// Moves the `n` payload bytes up behind the DNS query, writes the query in
/// front, and returns the new length.
pub fn dns_pad(buf: &mut [u8], n: usize) -> (r: usize)
    requires
        n + DNS_QUERY_LEN <= old(buf)@.len(),
    ensures
        r == n + DNS_QUERY_LEN,
        final(buf)@ == dns_query() + old(buf)@.subrange(0, n as int)
            + old(buf)@.subrange(n + DNS_QUERY_LEN, old(buf)@.len() as int),
{
    let ghost old_buf = buf@;
    assert(old_buf.len() == buf.len());
    let mut i: usize = n;
    while i > 0
        invariant
            i <= n,
            n + DNS_QUERY_LEN <= old_buf.len(),
            old_buf.len() <= usize::MAX,
            buf@.len() == old_buf.len(),
            forall|j: int| 0 <= j < buf@.len() ==> #[trigger] buf@[j] == (
                if i + DNS_QUERY_LEN <= j < n + DNS_QUERY_LEN { old_buf[j - DNS_QUERY_LEN] }
                else { old_buf[j] }),
        decreases i,
    {
        i = i - 1;
        let b = buf[i];
        buf[i + DNS_QUERY_LEN] = b;
    }
    let mut k: usize = 0;
    while k < DNS_QUERY_LEN
        invariant
            k <= DNS_QUERY_LEN,
            n + DNS_QUERY_LEN <= old_buf.len(),
            buf@.len() == old_buf.len(),
            DNS_QUERY@ == dns_query(),
            forall|j: int| 0 <= j < buf@.len() ==> #[trigger] buf@[j] == (
                if j < k { dns_query()[j] }
                else if DNS_QUERY_LEN <= j < n + DNS_QUERY_LEN { old_buf[j - DNS_QUERY_LEN] }
                else { old_buf[j] }),
        decreases DNS_QUERY_LEN - k,
    {
        proof { lemma_dns_query_bytes(); }
        buf[k] = DNS_QUERY[k];
        k = k + 1;
    }
    proof { lemma_dns_query_bytes(); }
    assert(buf@ =~= dns_query() + old_buf.subrange(0, n as int)
        + old_buf.subrange(n + DNS_QUERY_LEN, old_buf.len() as int));
    n + DNS_QUERY_LEN
}

/// Moves `n` bytes that follow the DNS query down to the front of the
/// buffer, and returns `n` less the query's length, or 0.
pub fn dns_unpad(buf: &mut [u8], n: usize) -> (r: usize)
    requires
        n + DNS_QUERY_LEN <= old(buf)@.len(),
    ensures
        r == if n >= DNS_QUERY_LEN { n - DNS_QUERY_LEN } else { 0 },
        final(buf)@ == old(buf)@.subrange(DNS_QUERY_LEN as int, n + DNS_QUERY_LEN)
            + old(buf)@.subrange(n as int, old(buf)@.len() as int),
{
    let ghost old_buf = buf@;
    assert(old_buf.len() == buf.len());
    let mut i: usize = 0;
    while i < n
        invariant
            i <= n,
            n + DNS_QUERY_LEN <= old_buf.len(),
            old_buf.len() <= usize::MAX,
            buf@.len() == old_buf.len(),
            forall|j: int| 0 <= j < buf@.len() ==> #[trigger] buf@[j] == (
                if j < i { old_buf[j + DNS_QUERY_LEN] } else { old_buf[j] }),
        decreases n - i,
    {
        let b = buf[i + DNS_QUERY_LEN];
        buf[i] = b;
        i = i + 1;
    }
    assert(buf@ =~= old_buf.subrange(DNS_QUERY_LEN as int, n + DNS_QUERY_LEN)
        + old_buf.subrange(n as int, old_buf.len() as int));
    n.saturating_sub(DNS_QUERY_LEN)
}

} // verus!
