//! Chat messages and the ordered, append-only message history.
use vstd::prelude::*;

verus! {

/// One chat message: who sent it and what it says.
pub struct Message {
    pub sender: String,
    pub content: String,
}

/// The sender recorded for a message composed on this node.
pub open spec fn local_sender() -> Seq<char> {
    seq!['u', 's', 'e', 'r']
}

/// The sender recorded for a message that arrived from the network.
pub open spec fn remote_sender() -> Seq<char> {
    seq!['p', 'e', 'e', 'r']
}

impl Message {
    /// A message composed on this node.
    pub fn outgoing(content: String) -> (m: Message)
        ensures
            m.sender@ == local_sender(),
            m.content == content,
    {
        let sender = String::from_str("user");
        proof {
            reveal_strlit("user");
        }
        Message { sender, content }
    }

    /// A message that arrived from a peer: only its content is kept.
    pub fn incoming(content: String) -> (m: Message)
        ensures
            m.sender@ == remote_sender(),
            m.content == content,
    {
        let sender = String::from_str("peer");
        proof {
            reveal_strlit("peer");
        }
        Message { sender, content }
    }
}

impl Clone for Message {
    fn clone(&self) -> (r: Message)
        ensures
            r == *self,
    {
        Message { sender: self.sender.clone(), content: self.content.clone() }
    }
}

/// The history of messages exchanged by this node, in the order they were
/// appended. Nothing is ever reordered, merged or removed.
pub struct MessageStore {
    messages: Vec<Message>,
}

impl View for MessageStore {
    type V = Seq<Message>;

    closed spec fn view(&self) -> Seq<Message> {
        self.messages@
    }
}

impl MessageStore {
    /// An empty history.
    pub fn new() -> (s: MessageStore)
        ensures
            s@ == Seq::<Message>::empty(),
    {
        MessageStore { messages: Vec::new() }
    }

    /// Appends one message at the end of the history.
    pub fn append(&mut self, m: Message)
        ensures
            final(self)@ == old(self)@.push(m),
    {
        self.messages.push(m);
    }

    /// The number of messages held.
    pub fn len(&self) -> (n: usize)
        ensures
            n == self@.len(),
    {
        self.messages.len()
    }

    /// A snapshot of the whole history, oldest first.
    pub fn list(&self) -> (r: Vec<Message>)
        ensures
            r@ == self@,
    {
        let mut out: Vec<Message> = Vec::new();
        let mut i: usize = 0;
        while i < self.messages.len()
            invariant
                i <= self.messages@.len(),
                out@ == self.messages@.subrange(0, i as int),
            decreases self.messages@.len() - i,
        {
            out.push(self.messages[i].clone());
            i = i + 1;
        }
        assert(self.messages@.subrange(0, self.messages@.len() as int) =~= self.messages@);
        out
    }

    /// Records a message composed on this node and returns it, so that the
    /// caller can hand it to the network.
    pub fn record_outgoing(&mut self, content: String) -> (m: Message)
        ensures
            m.sender@ == local_sender(),
            m.content == content,
            final(self)@ == old(self)@.push(m),
    {
        let m = Message::outgoing(content);
        self.append(m.clone());
        m
    }

    /// Records a message received from a peer, keeping its content and
    /// marking it as remote.
    pub fn record_incoming(&mut self, received: Message) -> (m: Message)
        ensures
            m.sender@ == remote_sender(),
            m.content == received.content,
            final(self)@ == old(self)@.push(m),
    {
        let m = Message::incoming(received.content);
        self.append(m.clone());
        m
    }
}


/// Appending messages one at a time, whether composed here or received,
/// leaves the history as the earlier history followed by the new messages in
/// the order they were appended: none is reordered, merged or lost.
pub proof fn appends_keep_order(histories: Seq<Seq<Message>>, appended: Seq<Message>)
    requires
        histories.len() == appended.len() + 1,
        forall|i: int|
            0 <= i < appended.len() ==> #[trigger] histories[i + 1] == histories[i].push(
                appended[i],
            ),
    ensures
        histories.last() == histories[0] + appended,
        histories.last().len() == histories[0].len() + appended.len(),
    decreases appended.len(),
{
    if appended.len() > 0 {
        let n = appended.len() - 1;
        let shorter = histories.subrange(0, histories.len() - 1);
        assert forall|i: int| 0 <= i < n implies #[trigger] shorter[i + 1] == shorter[i].push(
            appended.subrange(0, n)[i],
        ) by {
            assert(histories[i + 1] == histories[i].push(appended[i]));
        }
        appends_keep_order(shorter, appended.subrange(0, n));
        assert(histories[n + 1] == histories[n].push(appended[n]));
        assert(histories[0] + appended =~= (histories[0] + appended.subrange(0, n)).push(
            appended[n],
        ));
    }
}

} // verus!
