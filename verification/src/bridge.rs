//! The callback bridge: a FIFO queue of control messages between the
//! UI's thread (producer) and the host's polling loop (consumer).
//!
//! The producer side is driven synchronously from inside the UI's own
//! event loop, so it must never block and never fail loudly: when the
//! consumer is gone the message is dropped and only a diagnostic counter
//! records the loss.

use vstd::prelude::*;

verus! {

/// One control change pushed by the UI: which port changed, how the
/// payload is encoded (`port_protocol`), and the payload bytes
/// themselves, copied out of the foreign buffer while it was still
/// valid.
pub struct ExternalUIControlMessage {
    pub port_index: u32,
    pub buffer_size: u32,
    pub port_protocol: u32,
    pub buffer: Vec<u8>,
}

/// `sat_inc(n)` is `n + 1` unless the counter is already pinned at its
/// ceiling, where it stays.
pub open spec fn sat_inc(n: u64) -> u64 {
    if n < u64::MAX {
        (n + 1) as u64
    } else {
        n
    }
}

/// `sat_add(n, k)` is `n + k`, capped at the counter's ceiling.
pub open spec fn sat_add(n: u64, k: nat) -> u64 {
    if n + k <= u64::MAX {
        (n + k) as u64
    } else {
        u64::MAX
    }
}

/// The single-producer/single-consumer channel carrying control
/// messages from the UI to the host.
///
/// `pending` holds the enqueued messages, oldest first. `consumer_alive`
/// is the explicit stop barrier: once the host has closed its end, every
/// further enqueue is dropped and counted in `dropped_sends` instead of
/// queued.
pub struct ControlChannel {
    pub pending: Vec<ExternalUIControlMessage>,
    pub consumer_alive: bool,
    pub dropped_sends: u64,
}

impl ControlChannel {
    /// A fresh channel: nothing queued, consumer listening, nothing lost.
    pub fn new() -> (r: ControlChannel)
        ensures
            r.pending@ == Seq::<ExternalUIControlMessage>::empty(),
            r.consumer_alive,
            r.dropped_sends == 0,
    {
        ControlChannel { pending: Vec::new(), consumer_alive: true, dropped_sends: 0 }
    }

    /// Producer side: enqueue one message at the tail. Returns whether
    /// the message was queued; when the consumer is gone the message is
    /// dropped, the loss is counted, and the call still returns without
    /// failing — the UI thread must never be disturbed by the host
    /// having stopped listening.
    pub fn send(&mut self, msg: ExternalUIControlMessage) -> (queued: bool)
        ensures
            final(self).consumer_alive == old(self).consumer_alive,
            queued == old(self).consumer_alive,
            old(self).consumer_alive ==> {
                &&& final(self).pending@ == old(self).pending@.push(msg)
                &&& final(self).dropped_sends == old(self).dropped_sends
            },
            !old(self).consumer_alive ==> {
                &&& final(self).pending@ == old(self).pending@
                &&& final(self).dropped_sends == sat_inc(old(self).dropped_sends)
            },
    {
        if self.consumer_alive {
            self.pending.push(msg);
            true
        } else {
            if self.dropped_sends < u64::MAX {
                self.dropped_sends = self.dropped_sends + 1;
            }
            false
        }
    }

    /// Producer side: enqueue a batch in order, front first. The batch
    /// lands at the tail exactly in its own order; with the consumer
    /// gone, every element is dropped and counted.
    pub fn send_all(&mut self, msgs: Vec<ExternalUIControlMessage>) -> (queued: bool)
        ensures
            final(self).consumer_alive == old(self).consumer_alive,
            queued == old(self).consumer_alive,
            old(self).consumer_alive ==> {
                &&& final(self).pending@ == old(self).pending@ + msgs@
                &&& final(self).dropped_sends == old(self).dropped_sends
            },
            !old(self).consumer_alive ==> {
                &&& final(self).pending@ == old(self).pending@
                &&& final(self).dropped_sends == sat_add(old(self).dropped_sends, msgs@.len())
            },
    {
        let alive = self.consumer_alive;
        let ghost orig = *self;
        let ghost all = msgs@;
        let mut rest = msgs;
        let n = rest.len();
        let mut i: usize = 0;
        while i < n
            invariant
                n == all.len(),
                i <= n,
                rest@ == all.skip(i as int),
                self.consumer_alive == orig.consumer_alive,
                alive == orig.consumer_alive,
                alive ==> {
                    &&& self.pending@ == orig.pending@ + all.take(i as int)
                    &&& self.dropped_sends == orig.dropped_sends
                },
                !alive ==> {
                    &&& self.pending@ == orig.pending@
                    &&& self.dropped_sends == sat_add(orig.dropped_sends, i as nat)
                },
            decreases n - i,
        {
            let m = rest.remove(0);
            proof {
                assert(all.skip(i as int)[0] == all[i as int]);
                assert(all.skip(i as int).remove(0) =~= all.skip(i + 1));
                assert(all.take(i as int).push(all[i as int]) =~= all.take(i + 1));
            }
            self.send(m);
            i = i + 1;
        }
        proof {
            assert(all.take(n as int) =~= all);
        }
        alive
    }

    /// Consumer side: drain everything currently queued, oldest first,
    /// without waiting for more. Draining an empty channel yields an
    /// empty batch.
    pub fn drain(&mut self) -> (msgs: Vec<ExternalUIControlMessage>)
        ensures
            msgs@ == old(self).pending@,
            final(self).pending@ == Seq::<ExternalUIControlMessage>::empty(),
            final(self).consumer_alive == old(self).consumer_alive,
            final(self).dropped_sends == old(self).dropped_sends,
    {
        let mut out: Vec<ExternalUIControlMessage> = Vec::new();
        core::mem::swap(&mut out, &mut self.pending);
        out
    }

    /// Consumer side: the host's end is going away. Everything still
    /// queued becomes unreceivable, and later sends will be dropped.
    pub fn close(&mut self)
        ensures
            !final(self).consumer_alive,
            final(self).pending@ == Seq::<ExternalUIControlMessage>::empty(),
            final(self).dropped_sends == old(self).dropped_sends,
    {
        self.consumer_alive = false;
        self.pending = Vec::new();
    }
}

impl ExternalUIControlMessage {
    /// Field-for-field copy; the payload bytes are duplicated, so the
    /// copy stays valid after the original's buffer is gone.
    pub fn clone_message(&self) -> (r: ExternalUIControlMessage)
        ensures
            r.port_index == self.port_index,
            r.buffer_size == self.buffer_size,
            r.port_protocol == self.port_protocol,
            r.buffer@ == self.buffer@,
    {
        let mut buffer: Vec<u8> = Vec::new();
        let n = self.buffer.len();
        let mut i: usize = 0;
        while i < n
            invariant
                n == self.buffer@.len(),
                i <= n,
                buffer@ == self.buffer@.take(i as int),
            decreases n - i,
        {
            buffer.push(self.buffer[i]);
            proof {
                assert(self.buffer@.take(i as int).push(self.buffer@[i as int]) =~= self
                    .buffer@
                    .take(i + 1));
            }
            i = i + 1;
        }
        proof {
            assert(self.buffer@.take(n as int) =~= self.buffer@);
        }
        ExternalUIControlMessage {
            port_index: self.port_index,
            buffer_size: self.buffer_size,
            port_protocol: self.port_protocol,
            buffer,
        }
    }
}

/// FIFO law of the bridge: whatever was already queued and whatever a
/// producer enqueues afterwards, one drain hands the host first the old
/// contents and then the new batch, each in its original order — so of
/// two enqueues the earlier one always comes out at the smaller index.
pub proof fn lemma_fifo_order(
    before: Seq<ExternalUIControlMessage>,
    batch: Seq<ExternalUIControlMessage>,
    i: int,
    j: int,
)
    requires
        0 <= i < j < batch.len(),
    ensures
        (before + batch)[before.len() + i] == batch[i],
        (before + batch)[before.len() + j] == batch[j],
        before.len() + i < before.len() + j,
{
}

} // verus!
