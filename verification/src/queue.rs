use vstd::prelude::*;

verus! {

/// One message awaiting delivery: a payload, the group whose messages
/// are delivered in order, and the key under which repeated publishes
/// collapse.
pub struct FifoMessage {
    pub body: String,
    pub group: String,
    pub deduplication_id: String,
}

impl Clone for FifoMessage {
    fn clone(&self) -> (m: FifoMessage)
        ensures
            m == *self,
    {
        FifoMessage {
            body: self.body.clone(),
            group: self.group.clone(),
            deduplication_id: self.deduplication_id.clone(),
        }
    }
}

/// Whether some queued message carries the deduplication key `dedup`.
pub open spec fn has_dedup(ms: Seq<FifoMessage>, dedup: Seq<char>) -> bool {
    exists|i: int| 0 <= i < ms.len() && (#[trigger] ms[i]).deduplication_id@ == dedup
}

/// How a queue changes when one message with the given payload, group
/// and deduplication key is published on it: nothing if the key is
/// already queued, otherwise that message is appended.
pub open spec fn published(
    oldq: Seq<FifoMessage>,
    newq: Seq<FifoMessage>,
    body: Seq<char>,
    group: Seq<char>,
    dedup: Seq<char>,
) -> bool {
    if has_dedup(oldq, dedup) {
        newq == oldq
    } else {
        &&& newq.len() == oldq.len() + 1
        &&& newq.subrange(0, oldq.len() as int) == oldq
        &&& newq.last().body@ == body
        &&& newq.last().group@ == group
        &&& newq.last().deduplication_id@ == dedup
    }
}

/// Deterministic in-memory FIFO queue gateway. Delivery order is the
/// publish order, which refines the per-group ordering the production
/// queue guarantees; publishes whose deduplication key is already queued
/// collapse to nothing.
pub struct FifoQueue {
    pub queue_url: String,
    pub messages: Vec<FifoMessage>,
}

impl FifoQueue {
    pub fn new(queue_url: String) -> (q: FifoQueue)
        ensures
            q.queue_url == queue_url,
            q.messages@.len() == 0,
    {
        FifoQueue { queue_url, messages: Vec::new() }
    }

    /// Publishes `message`, unless a message with the same deduplication
    /// key is already queued, in which case nothing changes.
    pub fn send_fifo_message(&mut self, message: FifoMessage)
        ensures
            final(self).queue_url == old(self).queue_url,
            final(self).messages@ == if has_dedup(old(self).messages@, message.deduplication_id@) {
                old(self).messages@
            } else {
                old(self).messages@.push(message)
            },
    {
        let n = self.messages.len();
        let mut i: usize = 0;
        while i < n
            invariant
                0 <= i <= n,
                n == self.messages@.len(),
                forall|j: int|
                    0 <= j < i ==> (#[trigger] self.messages@[j]).deduplication_id@
                        != message.deduplication_id@,
            decreases n - i,
        {
            if self.messages[i].deduplication_id == message.deduplication_id {
                proof {
                    assert(has_dedup(self.messages@, message.deduplication_id@));
                }
                return ;
            }
            i = i + 1;
        }
        self.messages.push(message);
    }

    /// Takes every queued message: their payloads come back in delivery
    /// order and the queue is left empty.
    pub fn receive_fifo_message(&mut self) -> (r: Vec<String>)
        ensures
            final(self).queue_url == old(self).queue_url,
            final(self).messages@.len() == 0,
            r@.len() == old(self).messages@.len(),
            forall|i: int|
                0 <= i < r@.len() ==> (#[trigger] r@[i])@ == old(self).messages@[i].body@,
    {
        let n = self.messages.len();
        let mut r: Vec<String> = Vec::new();
        let mut i: usize = 0;
        while i < n
            invariant
                0 <= i <= n,
                n == self.messages@.len(),
                self.messages@ == old(self).messages@,
                r@.len() == i,
                forall|j: int|
                    0 <= j < i ==> (#[trigger] r@[j])@ == old(self).messages@[j].body@,
            decreases n - i,
        {
            r.push(self.messages[i].body.clone());
            i = i + 1;
        }
        self.messages = Vec::new();
        r
    }
}

} // verus!
