use vstd::prelude::*;

verus! {

/// The bytes of `s` after its first `n` bytes are XOR-ed with `token`;
/// the bytes from `n` on are left as they were.
pub open spec fn xor_prefix(s: Seq<u8>, n: int, token: u8) -> Seq<u8> {
    Seq::new(s.len(), |i: int| if i < n { s[i] ^ token } else { s[i] })
}

/// XORs the first `n` bytes of `buf` with `token`, in place.
pub fn xor(buf: &mut [u8], n: usize, token: u8)
    requires
        n <= old(buf)@.len(),
    ensures
        final(buf)@ == xor_prefix(old(buf)@, n as int, token),
{
    if token == 0 || n == 0 {
        proof {
            assert forall|i: int| 0 <= i < buf@.len() implies #[trigger] buf@[i] == xor_prefix(old(buf)@, n as int, token)[i] by {
                let b = buf@[i];
                assert(b ^ 0u8 == b) by (bit_vector);
            }
            assert(buf@ =~= xor_prefix(old(buf)@, n as int, token));
        }
        return;
    }
    let mut i: usize = 0;
    while i < n
        invariant
            n <= buf@.len(),
            i <= n,
            buf@.len() == old(buf)@.len(),
            forall|j: int| 0 <= j < buf@.len() ==> #[trigger] buf@[j] == (if j < i { old(buf)@[j] ^ token } else { old(buf)@[j] }),
        decreases n - i,
    {
        let b = buf[i];
        buf[i] = b ^ token;
        i = i + 1;
    }
    assert(buf@ =~= xor_prefix(old(buf)@, n as int, token));
}

/// XOR-ing the same bytes twice with the same token gives them back.
pub proof fn lemma_xor_involution(s: Seq<u8>, n: int, token: u8)
    ensures
        xor_prefix(xor_prefix(s, n, token), n, token) == s,
{
    assert forall|i: int| 0 <= i < s.len() implies #[trigger] xor_prefix(xor_prefix(s, n, token), n, token)[i] == s[i] by {
        let b = s[i];
        assert((b ^ token) ^ token == b) by (bit_vector);
    }
    assert(xor_prefix(xor_prefix(s, n, token), n, token) =~= s);
}

/// With a token other than zero, XOR changes every byte that it covers.
pub proof fn lemma_xor_changes_prefix(s: Seq<u8>, n: int, token: u8)
    requires
        token != 0,
    ensures
        forall|i: int| 0 <= i < n && i < s.len() ==> #[trigger] xor_prefix(s, n, token)[i] != s[i],
{
    assert forall|i: int| 0 <= i < n && i < s.len() implies #[trigger] xor_prefix(s, n, token)[i] != s[i] by {
        let b = s[i];
        assert(token != 0 ==> b ^ token != b) by (bit_vector);
    }
}

} // verus!
