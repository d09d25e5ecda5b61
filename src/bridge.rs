use vstd::prelude::*;

verus! {

/// The queue after one more message arrived from the device.
pub open spec fn queued_after(pending: Seq<Seq<u8>>, msg: Seq<u8>) -> Seq<Seq<u8>> {
    pending.push(msg)
}

/// The queue after the messages of `msgs` arrived one by one, in order.
pub open spec fn queued_all(pending: Seq<Seq<u8>>, msgs: Seq<Seq<u8>>) -> Seq<Seq<u8>>
    decreases msgs.len(),
{
    if msgs.len() == 0 {
        pending
    } else {
        queued_all(queued_after(pending, msgs[0]), msgs.drop_first())
    }
}

/// What the consumer has observed once the queue `pending` was handed over.
pub open spec fn observed_after(seen: Seq<Seq<u8>>, pending: Seq<Seq<u8>>) -> Seq<Seq<u8>> {
    seen + pending
}

/// Hands messages from the device callback over to the single consumer, in
/// the order in which they arrived.
pub struct MessageBridge {
    pending: Vec<Vec<u8>>,
}

impl View for MessageBridge {
    type V = Seq<Seq<u8>>;

    closed spec fn view(&self) -> Seq<Seq<u8>> {
        self.pending@.map_values(|m: Vec<u8>| m@)
    }
}

impl MessageBridge {
    /// A bridge with nothing pending.
    pub fn new() -> (r: MessageBridge)
        ensures
            r@ == Seq::<Seq<u8>>::empty(),
    {
        MessageBridge { pending: Vec::new() }
    }

    /// The number of messages waiting for the consumer.
    pub fn len(&self) -> (r: usize)
        ensures
            r == self@.len(),
    {
        self.pending.len()
    }

    /// Queues a message that the device callback received; never waits for
    /// the consumer.
    pub fn deliver(&mut self, msg: Vec<u8>)
        ensures
            final(self)@ == queued_after(old(self)@, msg@),
    {
        self.pending.push(msg);
        proof {
            assert(self@ =~= queued_after(old(self)@, msg@));
        }
    }

    /// The oldest message not yet handed over, if any.
    pub fn receive(&mut self) -> (r: Option<Vec<u8>>)
        ensures
            old(self)@.len() == 0 ==> r is None && final(self)@ == old(self)@,
            old(self)@.len() > 0 ==> (r matches Some(m) && m@ == old(self)@[0]
                && final(self)@ == old(self)@.drop_first()),
    {
        if self.pending.len() == 0 {
            None
        } else {
            let m = self.pending.remove(0);
            proof {
                assert(self@ =~= old(self)@.drop_first());
            }
            Some(m)
        }
    }

    /// Hands every pending message to `consumer`, oldest first.
    pub fn pump(&mut self, consumer: &mut LastMessage)
        ensures
            final(self)@ == Seq::<Seq<u8>>::empty(),
            final(consumer)@.1 == observed_after(old(consumer)@.1, old(self)@),
            old(self)@.len() == 0 ==> final(consumer)@.0 == old(consumer)@.0,
            old(self)@.len() > 0 ==> final(consumer)@.0 == old(self)@.last(),
    {
        let ghost start = old(self)@;
        let ghost seen0 = old(consumer)@.1;
        let ghost last0 = old(consumer)@.0;
        while self.pending.len() > 0
            invariant
                seen0 + start == consumer@.1 + self@,
                self@ == start.subrange(start.len() - self@.len(), start.len() as int),
                self@.len() < start.len() ==> consumer@.0 == start[start.len() - self@.len() - 1],
                self@.len() == start.len() ==> consumer@.0 == last0 && self@ == start
                    && consumer@.1 == seen0,
                self@.len() <= start.len(),
            decreases self@.len(),
        {
            let ghost before = self@;
            let ghost seen_before = consumer@.1;
            let m = self.receive();
            match m {
                Some(m) => {
                    consumer.record(m);
                    proof {
                        assert(before =~= seq![before[0]] + self@);
                        assert(seen_before + before =~= consumer@.1 + self@);
                        assert(self@ =~= start.subrange(start.len() - self@.len(), start.len() as int));
                    }
                },
                None => {},
            }
        }
        proof {
            assert(self@ =~= Seq::<Seq<u8>>::empty());
            assert(consumer@.1 =~= seen0 + start) by {
                assert(consumer@.1 + self@ =~= consumer@.1);
            };
        }
    }
}

/// The consumer: keeps the last message received for display, and the
/// history of everything it received.
pub struct LastMessage {
    last: Vec<u8>,
    seen: Ghost<Seq<Seq<u8>>>,
}

impl View for LastMessage {
    type V = (Seq<u8>, Seq<Seq<u8>>);

    closed spec fn view(&self) -> (Seq<u8>, Seq<Seq<u8>>) {
        (self.last@, self.seen@)
    }
}

impl LastMessage {
    /// A consumer that has received nothing; the last message is empty.
    pub fn new() -> (r: LastMessage)
        ensures
            r@.0 == Seq::<u8>::empty(),
            r@.1 == Seq::<Seq<u8>>::empty(),
    {
        LastMessage { last: Vec::new(), seen: Ghost(Seq::empty()) }
    }

    /// Takes one message: it replaces the last one. Always asks for a
    /// refresh of the display.
    pub fn record(&mut self, msg: Vec<u8>) -> (refresh: bool)
        ensures
            final(self)@.0 == msg@,
            final(self)@.1 == old(self)@.1.push(msg@),
            refresh,
    {
        let ghost m = msg@;
        self.seen = Ghost(self.seen@.push(m));
        self.last = msg;
        true
    }

    /// The last message received.
    pub fn last_message(&self) -> (r: &Vec<u8>)
        ensures
            r@ == self@.0,
    {
        &self.last
    }
}

/// Messages that arrive one by one reach the consumer in arrival order, with
/// none dropped and none interleaved: handing over the queue that they built
/// extends what the consumer had observed by exactly those messages.
pub proof fn lemma_arrival_order(seen: Seq<Seq<u8>>, msgs: Seq<Seq<u8>>)
    ensures
        observed_after(seen, queued_all(Seq::empty(), msgs)) == seen + msgs,
        forall|i: int|
            0 <= i < msgs.len() ==> #[trigger] observed_after(
                seen,
                queued_all(Seq::empty(), msgs),
            )[seen.len() + i] == msgs[i],
{
    lemma_queued_all(Seq::empty(), msgs);
    assert(Seq::<Seq<u8>>::empty() + msgs =~= msgs);
}

/// Queuing `msgs` one by one appends them to what was pending.
proof fn lemma_queued_all(pending: Seq<Seq<u8>>, msgs: Seq<Seq<u8>>)
    ensures
        queued_all(pending, msgs) == pending + msgs,
    decreases msgs.len(),
{
    if msgs.len() > 0 {
        lemma_queued_all(queued_after(pending, msgs[0]), msgs.drop_first());
        assert(pending.push(msgs[0]) + msgs.drop_first() =~= pending + msgs);
    } else {
        assert(pending + msgs =~= pending);
    }
}

} // verus!
