//! What the sender of datagrams keeps between its turns: the encoded
//! batches that wait for the socket, each one a datagram of its own.

use crate::jaeger::payload::{advance, contents, held, length};
use bytes::Bytes;
use vstd::prelude::*;

verus! {

/// The number of batches that are taken off the outbound queue in one turn,
/// so that one busy tracer does not starve the rest of the program.
pub const TICK: u8 = 10;

/// The bytes that still wait for the socket after `n` bytes were sent: of
/// the first datagram the rest, or the datagrams behind it when it went out
/// whole.
pub open spec fn after_sent(waiting: Seq<Seq<u8>>, n: nat) -> Seq<Seq<u8>> {
    if waiting.len() == 0 {
        waiting
    } else if n >= waiting[0].len() {
        waiting.drop_first()
    } else {
        waiting.update(0, waiting[0].subrange(n as int, waiting[0].len() as int))
    }
}

/// The datagrams that wait for the socket, oldest first.
pub struct SendQueue {
    waiting: Vec<Bytes>,
    /// How many datagrams were taken in during this turn.
    taken: u8,
}

impl SendQueue {
    /// What still waits for the socket, oldest first: of the first datagram
    /// only what has not gone out yet.
    pub closed spec fn unsent(&self) -> Seq<Seq<u8>> {
        Seq::new(self.waiting.len() as nat, |i: int| held(self.waiting[i]))
    }

    /// How many datagrams were taken in during this turn.
    pub closed spec fn spec_taken(&self) -> u8 {
        self.taken
    }

    pub fn new() -> (queue: Self)
        ensures
            queue.unsent() == Seq::<Seq<u8>>::empty(),
            queue.spec_taken() == 0,
    {
        let queue = SendQueue { waiting: Vec::new(), taken: 0 };
        assert(queue.unsent() =~= Seq::<Seq<u8>>::empty());
        queue
    }

    /// Starts a turn: nothing was taken in yet.
    pub fn begin_turn(&mut self)
        ensures
            final(self).unsent() == old(self).unsent(),
            final(self).spec_taken() == 0,
    {
        self.taken = 0;
        assert(self.unsent() =~= old(self).unsent());
    }

    /// Whether one more datagram may be taken in during this turn.
    pub fn wants_more(&self) -> (more: bool)
        ensures
            more == (self.spec_taken() < TICK),
    {
        self.taken < TICK
    }

    #[verifier::when_used_as_spec(spec_taken)]
    pub fn taken(&self) -> (n: u8)
        ensures
            n == self.spec_taken(),
    {
        self.taken
    }

    /// Takes a datagram in, behind those that wait.
    pub fn buffer(&mut self, data: Bytes)
        ensures
            final(self).unsent() == old(self).unsent().push(held(data)),
            final(self).spec_taken() == if old(self).spec_taken() < u8::MAX {
                (old(self).spec_taken() + 1) as u8
            } else {
                u8::MAX
            },
    {
        self.waiting.push(data);
        if self.taken < u8::MAX {
            self.taken = self.taken + 1;
        }
        assert(self.unsent() =~= old(self).unsent().push(held(data)));
    }

    pub fn is_empty(&self) -> (empty: bool)
        ensures
            empty == (self.unsent().len() == 0),
    {
        self.waiting.len() == 0
    }

    /// The number of datagrams that wait.
    pub fn len(&self) -> (n: usize)
        ensures
            n == self.unsent().len(),
    {
        self.waiting.len()
    }

    /// The bytes that go to the socket next: what is left of the oldest
    /// datagram.
    pub fn next_datagram(&self) -> (bytes: Option<&[u8]>)
        ensures
            bytes is Some <==> self.unsent().len() > 0,
            bytes matches Some(b) ==> b@ == self.unsent()[0],
    {
        if self.waiting.len() == 0 {
            None
        } else {
            Some(contents(&self.waiting[0]))
        }
    }

    /// Records that the socket took `n` bytes of the next datagram.
    pub fn sent(&mut self, n: usize)
        ensures
            final(self).unsent() == after_sent(old(self).unsent(), n as nat),
            final(self).spec_taken() == old(self).spec_taken(),
    {
        if self.waiting.len() == 0 {
            assert(self.unsent() =~= after_sent(old(self).unsent(), n as nat));
            return;
        }
        let mut head = self.waiting.remove(0);
        if n < length(&head) {
            advance(&mut head, n);
            self.waiting.insert(0, head);
        }
        assert(self.unsent() =~= after_sent(old(self).unsent(), n as nat));
    }
}

/// Nothing is lost and nothing changes places: whatever the socket takes,
/// the datagrams behind the first one wait as they were, and the first one
/// is either gone or shorter by what was taken from its front.
pub proof fn lemma_sent_keeps_the_rest(waiting: Seq<Seq<u8>>, n: nat)
    requires
        waiting.len() > 0,
    ensures
        after_sent(waiting, n).len() == if n >= waiting[0].len() {
            waiting.len() - 1
        } else {
            waiting.len() as int
        },
        n >= waiting[0].len() ==> after_sent(waiting, n) == waiting.subrange(
            1,
            waiting.len() as int,
        ),
        n < waiting[0].len() ==> after_sent(waiting, n).subrange(1, waiting.len() as int)
            == waiting.subrange(1, waiting.len() as int) && waiting[0].subrange(0, n as int)
            + after_sent(waiting, n)[0] == waiting[0],
{
    if n < waiting[0].len() {
        assert(after_sent(waiting, n).subrange(1, waiting.len() as int) =~= waiting.subrange(
            1,
            waiting.len() as int,
        ));
        assert(waiting[0].subrange(0, n as int) + after_sent(waiting, n)[0] =~= waiting[0]);
    }
}

} // verus!
