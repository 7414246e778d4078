use vstd::prelude::*;

verus! {

/// The flag that asks every task to stop.
pub struct Shutdown {
    requested: bool,
}

impl View for Shutdown {
    type V = bool;

    closed spec fn view(&self) -> bool {
        self.requested
    }
}

impl Shutdown {
    /// A flag that nobody has raised.
    pub fn new() -> (r: Shutdown)
        ensures
            !r@,
    {
        Shutdown { requested: false }
    }

    /// Raises the flag.
    pub fn request(&mut self)
        ensures
            final(self)@,
    {
        self.requested = true;
    }

    /// Raises the flag, and says whether this call is the one that raised
    /// it: only the first caller reports the error that made it stop.
    pub fn try_request(&mut self) -> (r: bool)
        ensures
            r == !old(self)@,
            final(self)@,
    {
        if self.requested {
            false
        } else {
            self.requested = true;
            true
        }
    }

    /// Whether the flag is up.
    pub fn requested(&self) -> (r: bool)
        ensures
            r == self@,
    {
        self.requested
    }
}

/// What `k` calls of [`Shutdown::try_request`] return in turn, one after
/// another, starting from a flag that is `up` or not.
pub open spec fn try_request_results(up: bool, k: nat) -> Seq<bool>
    decreases k,
{
    if k == 0 {
        Seq::empty()
    } else {
        seq![!up] + try_request_results(true, (k - 1) as nat)
    }
}

/// Once the flag is up, every further `try_request` returns `false`.
pub proof fn lemma_try_request_after_up(k: nat)
    ensures
        try_request_results(true, k).len() == k,
        forall|i: int| 0 <= i < k ==> !#[trigger] try_request_results(true, k)[i],
    decreases k,
{
    if k > 0 {
        lemma_try_request_after_up((k - 1) as nat);
        let r = try_request_results(true, k);
        let t = try_request_results(true, (k - 1) as nat);
        assert forall|i: int| 0 <= i < k implies !#[trigger] r[i] by {
            if i > 0 {
                assert(r[i] == t[i - 1]);
            }
        }
    }
}

/// Of `k >= 1` requests made while the flag is down, exactly one, the
/// first, reports that it raised the flag: the fatal error is logged once.
pub proof fn lemma_try_request_once(k: nat)
    requires
        k >= 1,
    ensures
        try_request_results(false, k).len() == k,
        try_request_results(false, k)[0],
        forall|i: int| 0 < i < k ==> !#[trigger] try_request_results(false, k)[i],
{
    lemma_try_request_after_up((k - 1) as nat);
    let r = try_request_results(false, k);
    let t = try_request_results(true, (k - 1) as nat);
    assert forall|i: int| 0 < i < k implies !#[trigger] r[i] by {
        assert(r[i] == t[i - 1]);
    }
}

} // verus!
