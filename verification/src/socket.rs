use vstd::prelude::*;

verus! {

/// The two sockets of the relay: the one that clients send to, and the
/// one connected to the remote end.
#[derive(Clone, Copy, Debug, PartialEq, Eq, Structural)]
pub enum Socket {
    Inbound,
    Outbound,
}

/// The socket on the other side.
pub open spec fn opposite(s: Socket) -> Socket {
    match s {
        Socket::Inbound => Socket::Outbound,
        Socket::Outbound => Socket::Inbound,
    }
}

/// The name by which a socket appears in messages.
pub open spec fn socket_name(s: Socket) -> Seq<char> {
    match s {
        Socket::Inbound => seq!['i', 'n', 'b', 'o', 'u', 'n', 'd'],
        Socket::Outbound => seq!['o', 'u', 't', 'b', 'o', 'u', 'n', 'd'],
    }
}

impl Socket {
    /// The socket on the other side: what one receives, the other sends.
    pub fn not(self) -> (r: Socket)
        ensures
            r == opposite(self),
    {
        match self {
            Socket::Inbound => Socket::Outbound,
            Socket::Outbound => Socket::Inbound,
        }
    }

    /// The socket's name.
    pub fn as_str(&self) -> (r: &'static str)
        ensures
            r@ == socket_name(*self),
    {
        match self {
            Socket::Inbound => {
                proof { reveal_strlit("inbound"); }
                assert("inbound"@ =~= socket_name(*self));
                "inbound"
            },
            Socket::Outbound => {
                proof { reveal_strlit("outbound"); }
                assert("outbound"@ =~= socket_name(*self));
                "outbound"
            },
        }
    }
}

/// Going to the other side twice comes back.
pub proof fn lemma_opposite_involution(s: Socket)
    ensures
        opposite(opposite(s)) == s,
        opposite(s) != s,
{
}

} // verus!
