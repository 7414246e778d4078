use vstd::prelude::*;

use super::{MethodApply, MethodError};
use crate::error::InitError;
use crate::xor::{xor, xor_prefix};

verus! {

/// The write-once cell that holds the XOR token.
pub struct XorToken {
    token: Option<u8>,
}

impl View for XorToken {
    type V = Option<u8>;

    closed spec fn view(&self) -> Option<u8> {
        self.token
    }
}

impl XorToken {
    /// An empty cell.
    pub fn new() -> (r: XorToken)
        ensures
            r@ is None,
    {
        XorToken { token: None }
    }

    /// Sets the token; a cell that holds one already is left as it is.
    pub fn init(&mut self, val: u8) -> (r: Result<(), InitError>)
        ensures
            r is Ok <==> old(self)@ is None,
            r is Ok ==> final(self)@ == Some(val),
            r is Err ==> r == Err::<(), InitError>(InitError::AlreadyExists) && final(self)@ == old(self)@,
    {
        if self.token.is_some() {
            return Err(InitError::AlreadyExists);
        }
        self.token = Some(val);
        Ok(())
    }

    /// Whether a token was set.
    pub fn is_set(&self) -> (r: bool)
        ensures
            r == self@ is Some,
    {
        self.token.is_some()
    }

    /// The token that was set.
    pub fn get(&self) -> (r: u8)
        requires
            self@ is Some,
        ensures
            self@ == Some(r),
    {
        self.token.unwrap()
    }

    /// The transform that XORs with the token that was set.
    pub fn xor(&self) -> (r: Xor)
        requires
            self@ is Some,
        ensures
            self@ == Some(r.token),
    {
        Xor { token: self.get() }
    }
}

/// XORs the payload with a one-byte token; it is its own inverse.
#[derive(Clone, Copy)]
pub struct Xor {
    pub token: u8,
}

impl MethodApply for Xor {
    open spec fn apply_pre(&self, len: nat, n: nat) -> bool {
        n <= len
    }

    open spec fn apply_ok(&self, len: nat, n: nat) -> bool {
        true
    }

    open spec fn applied_buf(&self, buf: Seq<u8>, n: nat) -> Seq<u8> {
        xor_prefix(buf, n as int, self.token)
    }

    open spec fn applied_len(&self, n: nat) -> nat {
        n
    }

    fn apply(&self, buf: &mut [u8], n: &mut usize) -> (r: Result<(), MethodError>) {
        xor(buf, *n, self.token);
        Ok(())
    }
}

} // verus!
