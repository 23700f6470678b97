use vstd::prelude::*;

use crate::completion::Message;
use crate::completion::MessageView;

verus! {

/// One message of a finished conversation, and whether the backend produced
/// it.
#[derive(Debug)]
pub struct MessageSnapshot {
    pub message_payload: Message,
    pub evaluation_point: bool,
}

/// What a [`MessageSnapshot`] holds.
pub ghost struct MessageSnapshotView {
    pub message_payload: MessageView,
    pub evaluation_point: bool,
}

impl View for MessageSnapshot {
    type V = MessageSnapshotView;

    open spec fn view(&self) -> MessageSnapshotView {
        MessageSnapshotView {
            message_payload: self.message_payload@,
            evaluation_point: self.evaluation_point,
        }
    }
}

impl Clone for MessageSnapshot {
    fn clone(&self) -> (r: Self)
        ensures
            r@ == self@,
    {
        MessageSnapshot {
            message_payload: self.message_payload.clone(),
            evaluation_point: self.evaluation_point,
        }
    }
}

/// A finished conversation as a value to be stored: its messages in order.
#[derive(Debug)]
pub struct ConversationSnapshot {
    pub messages: Vec<MessageSnapshot>,
}

impl View for ConversationSnapshot {
    type V = Seq<MessageSnapshotView>;

    open spec fn view(&self) -> Seq<MessageSnapshotView> {
        Seq::new(self.messages@.len(), |i: int| self.messages@[i]@)
    }
}

impl Clone for ConversationSnapshot {
    fn clone(&self) -> (r: Self)
        ensures
            r@ == self@,
    {
        let mut out: Vec<MessageSnapshot> = Vec::new();
        let mut i: usize = 0;
        while i < self.messages.len()
            invariant
                i <= self.messages.len(),
                out.len() == i,
                forall|j: int| 0 <= j < i ==> (#[trigger] out@[j])@ == self.messages@[j]@,
            decreases self.messages.len() - i,
        {
            out.push(self.messages[i].clone());
            i = i + 1;
        }
        let r = ConversationSnapshot { messages: out };
        r
    }
}

} // verus!
