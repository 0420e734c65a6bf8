use vstd::prelude::*;

verus! {

/// The queue contents after sending every sample of `sent` in order onto a
/// channel whose queue holds `q`.
pub open spec fn after_sends(q: Seq<i64>, sent: Seq<i64>) -> Seq<i64>
    decreases sent.len(),
{
    if sent.len() == 0 {
        q
    } else {
        after_sends(q.push(sent[0]), sent.drop_first())
    }
}

/// The queue contents after `k` successful receives from a queue holding `q`.
pub open spec fn after_receives(q: Seq<i64>, k: nat) -> Seq<i64>
    decreases k,
{
    if k == 0 {
        q
    } else {
        after_receives(q, (k - 1) as nat).drop_first()
    }
}

/// An ordered, unbounded queue carrying samples from a hardware-callback
/// producer to the draining consumer. Sends never block and never fail;
/// receives never block and report "empty" instead. Samples come out in the
/// order they were sent.
pub struct SampleChannel {
    queue: Vec<i64>,
}

impl SampleChannel {
    /// The queued samples, next-to-be-received first.
    pub closed spec fn view(&self) -> Seq<i64> {
        self.queue@
    }

    /// An empty channel.
    pub fn new() -> (c: SampleChannel)
        ensures
            c@ == Seq::<i64>::empty(),
    {
        SampleChannel { queue: Vec::new() }
    }

    /// Enqueue one sample at the tail. Never blocks and never reports
    /// failure to the caller: a hardware callback must not be stalled.
    pub fn send(&mut self, s: i64)
        ensures
            final(self)@ == old(self)@.push(s),
    {
        self.queue.push(s);
    }

    /// Dequeue the oldest sample, or report `None` when the queue is empty.
    /// Never blocks.
    pub fn try_receive(&mut self) -> (r: Option<i64>)
        ensures
            old(self)@.len() == 0 ==> r == None::<i64> && final(self)@ == old(self)@,
            old(self)@.len() > 0 ==> r == Some(old(self)@[0]) && final(self)@ == old(
                self,
            )@.drop_first(),
    {
        if self.queue.len() == 0 {
            None
        } else {
            let s = self.queue.remove(0);
            proof {
                assert(self.queue@ =~= old(self).queue@.drop_first());
            }
            Some(s)
        }
    }

    /// Whether any sample is currently queued.
    pub fn is_empty(&self) -> (r: bool)
        ensures
            r == (self@.len() == 0),
    {
        self.queue.len() == 0
    }
}

/// Sending appends: the queue after a burst of sends is the old queue
/// followed by the sent samples in send order.
pub proof fn lemma_sends_append(q: Seq<i64>, sent: Seq<i64>)
    ensures
        after_sends(q, sent) == q + sent,
    decreases sent.len(),
{
    if sent.len() == 0 {
        assert(q + sent =~= q);
    } else {
        lemma_sends_append(q.push(sent[0]), sent.drop_first());
        assert(q.push(sent[0]) + sent.drop_first() =~= q + sent);
    }
}

/// Receiving takes from the head: after `k` successful receives the first
/// `k` samples are gone and the rest wait in order.
pub proof fn lemma_receives_drop(q: Seq<i64>, k: nat)
    requires
        k <= q.len(),
    ensures
        after_receives(q, k) == q.skip(k as int),
    decreases k,
{
    if k == 0 {
        assert(q.skip(0) =~= q);
    } else {
        lemma_receives_drop(q, (k - 1) as nat);
        assert(q.skip(k as int - 1).drop_first() =~= q.skip(k as int));
    }
}

/// Law: samples sent on an empty channel before any receive are received
/// back exactly, in send order. After the sends the queue equals `sent`;
/// the `k`-th receive yields `sent[k]`; and once every sample has been
/// received the channel reports empty.
pub proof fn lemma_channel_fifo(sent: Seq<i64>, k: nat)
    requires
        k < sent.len(),
    ensures
        after_sends(Seq::<i64>::empty(), sent) == sent,
        after_receives(sent, k)[0] == sent[k as int],
        after_receives(sent, sent.len()).len() == 0,
{
    lemma_sends_append(Seq::<i64>::empty(), sent);
    assert(Seq::<i64>::empty() + sent =~= sent);
    lemma_receives_drop(sent, k);
    lemma_receives_drop(sent, sent.len());
}

} // verus!
