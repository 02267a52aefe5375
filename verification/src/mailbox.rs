use vstd::prelude::*;
use crate::protocol::{GuiRequest, GuiRequestView};

verus! {

/// Number of commands the mailbox holds at most; with that many pending,
/// the producer must wait for the consumer to drain one.
pub const MAILBOX_CAPACITY: usize = 128;

/// What an enqueue attempt did.
#[derive(Debug, Clone, Copy, PartialEq, Eq)]
pub enum EnqueueResult {
    /// The command was appended behind every earlier one.
    Accepted,
    /// The mailbox is at capacity; nothing was dropped or reordered, the
    /// producer must retry once the consumer has dequeued.
    MustWait,
    /// The mailbox was closed for shutdown; nothing changes any more.
    Closed,
}

/// What a dequeue attempt found.
#[derive(Debug, Clone, PartialEq, Eq)]
pub enum DequeueResult {
    /// The oldest pending command.
    Ready(GuiRequest),
    /// Nothing pending yet; the consumer must wait.
    MustWait,
    /// Closed and drained: the consumer's loop ends.
    Closed,
}

/// Model of the bounded, ordered command queue between the UI thread and
/// the worker: strict FIFO, fixed capacity, and a close signal that turns
/// further traffic into `Closed` rather than blocking forever.
pub struct Mailbox {
    pending: Vec<GuiRequest>,
    closed: bool,
}

/// Mathematical model of a mailbox: the pending commands in submission
/// order, and whether it was closed.
pub struct MailboxView {
    pub pending: Seq<GuiRequestView>,
    pub closed: bool,
}

impl View for Mailbox {
    type V = MailboxView;

    closed spec fn view(&self) -> MailboxView {
        MailboxView {
            pending: self.pending@.map_values(|r: GuiRequest| r@),
            closed: self.closed,
        }
    }
}

impl Mailbox {
    /// A fresh, open, empty mailbox.
    pub fn new() -> (m: Mailbox)
        ensures
            m@.pending.len() == 0,
            !m@.closed,
    {
        Mailbox { pending: Vec::new(), closed: false }
    }

    pub fn len(&self) -> (n: usize)
        ensures
            n == self@.pending.len(),
    {
        self.pending.len()
    }

    pub fn is_closed(&self) -> (c: bool)
        ensures
            c == self@.closed,
    {
        self.closed
    }

    /// Appends a command behind every earlier one, unless the mailbox is at
    /// capacity (the producer must wait: backpressure, never loss or
    /// reordering) or closed.
    pub fn enqueue(&mut self, cmd: GuiRequest) -> (r: EnqueueResult)
        ensures
            old(self)@.closed ==> r == EnqueueResult::Closed && final(self)@ == old(self)@,
            !old(self)@.closed && old(self)@.pending.len() < MAILBOX_CAPACITY ==> r
                == EnqueueResult::Accepted && final(self)@.pending == old(self)@.pending.push(cmd@)
                && !final(self)@.closed,
            !old(self)@.closed && old(self)@.pending.len() >= MAILBOX_CAPACITY ==> r
                == EnqueueResult::MustWait && final(self)@ == old(self)@,
    {
        if self.closed {
            EnqueueResult::Closed
        } else if self.pending.len() < MAILBOX_CAPACITY {
            let ghost before = self.pending@;
            self.pending.push(cmd);
            proof {
                assert(self.pending@.map_values(|r: GuiRequest| r@) =~= before.map_values(
                    |r: GuiRequest| r@,
                ).push(cmd@));
            }
            EnqueueResult::Accepted
        } else {
            EnqueueResult::MustWait
        }
    }

    /// Removes and returns the oldest pending command; pending commands are
    /// still handed out after closing, so nothing submitted is lost.
    pub fn dequeue(&mut self) -> (r: DequeueResult)
        ensures
            old(self)@.pending.len() > 0 ==> (r matches DequeueResult::Ready(c) && c@ == old(
                self,
            )@.pending[0] && final(self)@.pending == old(self)@.pending.skip(1) && final(self)@.closed
                == old(self)@.closed),
            old(self)@.pending.len() == 0 && old(self)@.closed ==> r == DequeueResult::Closed
                && final(self)@ == old(self)@,
            old(self)@.pending.len() == 0 && !old(self)@.closed ==> r == DequeueResult::MustWait
                && final(self)@ == old(self)@,
    {
        if self.pending.len() > 0 {
            let ghost before = self.pending@;
            let c = self.pending.remove(0);
            proof {
                assert(self.pending@.map_values(|r: GuiRequest| r@) =~= before.map_values(
                    |r: GuiRequest| r@,
                ).skip(1));
            }
            DequeueResult::Ready(c)
        } else if self.closed {
            DequeueResult::Closed
        } else {
            DequeueResult::MustWait
        }
    }

    /// Marks the mailbox closed for shutdown; what is already pending stays.
    pub fn close(&mut self)
        ensures
            final(self)@.closed,
            final(self)@.pending == old(self)@.pending,
    {
        self.closed = true;
    }
}

/// FIFO law: however far the worker has drained a mailbox that held
/// `pending`, the commands observed so far are exactly the oldest `k` in
/// submission order, and the next observed is `pending[k]` — so any two
/// commands are observed in the relative order they were submitted.
pub proof fn lemma_fifo_order(pending: Seq<GuiRequestView>, k: int)
    requires
        0 <= k < pending.len(),
    ensures
        pending.take(k) + pending.skip(k) == pending,
        pending.skip(k)[0] == pending[k],
{
    assert(pending.take(k) + pending.skip(k) =~= pending);
}

/// Backpressure law: with the mailbox at capacity the producer's command is
/// neither dropped nor reordered — it waits. One drain makes room, and the
/// retried enqueue places the command behind every remaining earlier one.
pub proof fn lemma_backpressure(pending: Seq<GuiRequestView>, cmd: GuiRequestView)
    requires
        pending.len() == MAILBOX_CAPACITY,
    ensures
        pending.skip(1).len() < MAILBOX_CAPACITY,
        pending.skip(1).push(cmd).len() == MAILBOX_CAPACITY,
        forall|i: int|
            0 <= i < pending.len() - 1 ==> pending.skip(1).push(cmd)[i] == pending[i + 1],
        pending.skip(1).push(cmd)[MAILBOX_CAPACITY - 1] == cmd,
{
}

} // verus!
