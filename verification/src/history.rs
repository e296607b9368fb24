use vstd::prelude::*;
use crate::message::Message;

verus! {

/// The shared conversation log: an append-only ordered list of turns, with
/// one exception — the newest turn may be replaced while an assistant
/// message is still streaming in. The surrounding application may wrap it
/// in whatever synchronisation it needs; every mutation goes through the
/// methods here, so the order of the log is exactly the order of the
/// appends.
#[derive(Debug)]
pub struct ChatHistory {
    pub messages: Vec<Message>,
}

impl ChatHistory {
    /// An empty conversation log.
    pub fn new() -> (r: ChatHistory)
        ensures
            r.messages@.len() == 0,
    {
        ChatHistory { messages: Vec::new() }
    }

    /// The number of turns recorded so far.
    pub fn len(&self) -> (r: usize)
        ensures
            r == self.messages@.len(),
    {
        self.messages.len()
    }

    /// Appends one turn at the end of the log, leaving every earlier turn in
    /// place.
    pub fn push(&mut self, msg: Message)
        ensures
            final(self).messages@ == old(self).messages@.push(msg),
    {
        self.messages.push(msg);
    }

    /// Appends the given turns at the end of the log, in their own order,
    /// leaving every earlier turn in place.
    pub fn append_all(&mut self, mut msgs: Vec<Message>)
        ensures
            final(self).messages@ == old(self).messages@ + msgs@,
    {
        self.messages.append(&mut msgs);
    }

    /// Replaces the newest turn. This is the log's one sanctioned mutation:
    /// the in-flight assistant message is replaced by its fuller accumulated
    /// version as streaming chunks arrive; every other turn is append-only.
    pub fn replace_last(&mut self, msg: Message)
        requires
            old(self).messages@.len() > 0,
        ensures
            final(self).messages@ == old(self).messages@.update(
                old(self).messages@.len() - 1,
                msg,
            ),
    {
        let i = self.messages.len() - 1;
        self.messages[i] = msg;
    }

    /// Empties the log; the user's explicit clear command is the only caller.
    pub fn clear_messages(&mut self)
        ensures
            final(self).messages@.len() == 0,
    {
        self.messages.clear();
    }

    /// A view of the recorded turns.
    pub fn get_history(&self) -> (r: &Vec<Message>)
        ensures
            r@ == self.messages@,
    {
        &self.messages
    }
}

/// History order equals append order: after a run of appends, every turn
/// that was already recorded keeps its position, and the appended turns
/// follow it in exactly the order they were handed over; nothing is
/// reordered.
pub proof fn lemma_history_append_order(prev: Seq<Message>, added: Seq<Message>)
    ensures
        (prev + added).len() == prev.len() + added.len(),
        forall|i: int| 0 <= i < prev.len() ==> (prev + added)[i] == prev[i],
        forall|j: int| 0 <= j < added.len() ==> (prev + added)[prev.len() + j] == added[j],
{
}

} // verus!
