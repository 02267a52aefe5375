use vstd::prelude::*;

verus! {

/// The synchronous query channel's one-shot slot: written at most once with
/// the folder the user picked (or `None` for a cancel or failure — absence
/// is a valid terminal answer, not an error), read at most once. Its
/// lifetime spans exactly one UI-thread-only operation.
pub struct QuerySlot {
    answer: Option<Option<String>>,
    taken: bool,
}

impl QuerySlot {
    /// Not yet written.
    pub closed spec fn unfilled(&self) -> bool {
        self.answer is None && !self.taken
    }

    /// Written, not yet read.
    pub closed spec fn filled(&self) -> bool {
        self.answer is Some && !self.taken
    }

    /// Read; nothing will be delivered again.
    pub closed spec fn exhausted(&self) -> bool {
        self.taken
    }

    /// The answer held, if any: the chosen path's text, or `None` inside
    /// for "no folder chosen".
    pub closed spec fn value(&self) -> Option<Option<Seq<char>>> {
        self.answer.deep_view()
    }

    /// A fresh slot, handed to the caller before the UI-thread operation is
    /// scheduled.
    pub fn new() -> (s: QuerySlot)
        ensures
            s.unfilled(),
    {
        QuerySlot { answer: None, taken: false }
    }

    /// The single write: the UI thread deposits the outcome of the picker.
    pub fn put(&mut self, answer: Option<String>)
        requires
            old(self).unfilled(),
        ensures
            final(self).filled(),
            final(self).value() == Some(answer.deep_view()),
    {
        self.answer = Some(answer);
    }

    /// The single read: the blocked caller receives the outcome; the slot
    /// is exhausted afterwards.
    pub fn take(&mut self) -> (r: Option<String>)
        requires
            old(self).filled(),
        ensures
            final(self).exhausted(),
            Some(r.deep_view()) == old(self).value(),
    {
        self.taken = true;
        match self.answer.take() {
            Some(ans) => ans,
            None => None,
        }
    }
}

/// One-shot law: a slot is always in exactly one of its three states, so a
/// write needs an unfilled slot and a read needs a filled one — at most one
/// value ever passes through, and it passes at most once. Two concurrent
/// queries use two distinct slots, so their deliveries cannot cross.
pub proof fn lemma_slot_one_shot(s: QuerySlot)
    ensures
        s.unfilled() ==> !s.filled() && !s.exhausted(),
        s.filled() ==> !s.unfilled() && !s.exhausted(),
        s.exhausted() ==> !s.unfilled() && !s.filled(),
{
}

} // verus!
