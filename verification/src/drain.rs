//! The wait that follows a new date: the mount recomputes its planetary
//! data and says so in two messages, each ended by the degree byte, whose
//! text is of no interest.

use crate::requests::grammar::DEGREE;
use vstd::prelude::*;

verus! {

/// How many messages the mount sends after it has accepted a date.
pub const MESSAGES: u8 = 2;

/// How many bytes to ask the stream for at a time while waiting.
pub const SCRATCH: usize = 8;

/// How many bytes of `bytes` are the degree byte that ends a message.
pub open spec fn terminators(bytes: Seq<u8>) -> nat
    decreases bytes.len(),
{
    if bytes.len() == 0 {
        0
    } else {
        terminators(bytes.drop_last()) + if bytes.last() == DEGREE {
            1nat
        } else {
            0nat
        }
    }
}

/// How far the wait has come: how many of the messages have ended.
#[derive(Clone, Copy, Debug, PartialEq, Eq)]
pub struct Drain {
    seen: u8,
}

impl View for Drain {
    type V = nat;

    /// How many messages have ended, up to [`MESSAGES`].
    closed spec fn view(&self) -> nat {
        self.seen as nat
    }
}

impl Drain {
    #[verifier::type_invariant]
    spec fn bounded(self) -> bool {
        self.seen <= MESSAGES
    }

    /// Where the wait stands once `bytes` have come in, if `seen` messages
    /// had ended before: every terminator among them ends one message more,
    /// until all have ended.
    pub open spec fn after(seen: nat, bytes: Seq<u8>) -> nat {
        if seen + terminators(bytes) >= MESSAGES {
            MESSAGES as nat
        } else {
            seen + terminators(bytes)
        }
    }

    /// Whether the wait is over.
    pub open spec fn complete(self) -> bool {
        self@ == MESSAGES
    }

    /// The wait at its start, as the mount has just accepted the date.
    pub fn new() -> (r: Drain)
        ensures
            r@ == 0,
    {
        Drain { seen: 0 }
    }

    /// Whether the wait is over.
    pub fn is_complete(&self) -> (r: bool)
        ensures
            r == self.complete(),
    {
        self.seen == MESSAGES
    }

    /// Takes in what one read of the stream has brought, none of it or more,
    /// and says whether the wait is over. The bytes are wiped: what the
    /// messages say is thrown away.
    pub fn feed(&mut self, chunk: &mut Vec<u8>) -> (done: bool)
        ensures
            final(self)@ == Drain::after(old(self)@, old(chunk)@),
            done == final(self).complete(),
            final(chunk)@ == Seq::new(old(chunk)@.len(), |i: int| 0u8),
    {
        proof {
            use_type_invariant(&*self);
        }
        let mut seen = self.seen;
        let mut n: usize = 0;
        while n < chunk.len()
            invariant
                n <= chunk.len(),
                chunk@.len() == old(chunk)@.len(),
                seen <= MESSAGES,
                seen == Drain::after(old(self)@, old(chunk)@.take(n as int)),
                forall|i: int| 0 <= i < n ==> chunk@[i] == 0,
                forall|i: int| n <= i < chunk@.len() ==> chunk@[i] == old(chunk)@[i],
            decreases chunk.len() - n,
        {
            proof {
                assert(old(chunk)@.take(n + 1).drop_last() =~= old(chunk)@.take(n as int));
            }
            if chunk[n] == DEGREE && seen < MESSAGES {
                seen += 1;
            }
            chunk[n] = 0;
            n += 1;
        }
        proof {
            assert(old(chunk)@.take(n as int) =~= old(chunk)@);
        }
        self.seen = seen;
        seen == MESSAGES
    }
}

/// Bytes that come in one after the other count as if they had come at once.
proof fn lemma_terminators_add(first: Seq<u8>, second: Seq<u8>)
    ensures
        terminators(first + second) == terminators(first) + terminators(second),
    decreases second.len(),
{
    if second.len() == 0 {
    } else {
        lemma_terminators_add(first, second.drop_last());
        assert((first + second).drop_last() =~= first + second.drop_last());
    }
}

/// The wait does not depend on how the stream cuts up what the mount sends:
/// two reads leave it where one read of all their bytes would.
pub proof fn lemma_after_chunks(seen: nat, first: Seq<u8>, second: Seq<u8>)
    ensures
        Drain::after(Drain::after(seen, first), second) == Drain::after(seen, first + second),
{
    lemma_terminators_add(first, second);
}

/// A read that brings nothing leaves the wait where it was.
pub proof fn lemma_after_nothing(seen: nat)
    requires
        seen <= MESSAGES,
    ensures
        Drain::after(seen, Seq::empty()) == seen,
{
}

} // verus!
