use vstd::prelude::*;

verus! {

/// The texts of a sequence of strings.
pub open spec fn texts(v: Seq<String>) -> Seq<Seq<char>> {
    v.map_values(|s: String| s@)
}

/// An unbounded first-in-first-out buffer of formatted messages.
pub struct MessageQueue {
    items: Vec<String>,
}

impl View for MessageQueue {
    type V = Seq<Seq<char>>;

    /// The queued messages, oldest first.
    closed spec fn view(&self) -> Seq<Seq<char>> {
        texts(self.items@)
    }
}

impl MessageQueue {
    pub fn new() -> (r: MessageQueue)
        ensures
            r@ == Seq::<Seq<char>>::empty(),
    {
        let r = MessageQueue { items: Vec::new() };
        assert(r@ =~= Seq::<Seq<char>>::empty());
        r
    }

    /// Appends `message` at the tail.
    pub fn enqueue(&mut self, message: String)
        ensures
            final(self)@ == old(self)@.push(message@),
    {
        self.items.push(message);
        assert(texts(self.items@) =~= texts(old(self).items@).push(message@));
    }

    /// Removes every queued message and returns them, oldest first.
    pub fn drain_all(&mut self) -> (r: Vec<String>)
        ensures
            (texts(r@), final(self)@) == drained(old(self)@),
    {
        let mut out: Vec<String> = Vec::new();
        std::mem::swap(&mut self.items, &mut out);
        assert(texts(self.items@) =~= Seq::<Seq<char>>::empty());
        assert(texts(out@) == old(self)@);
        out
    }

    pub fn len(&self) -> (r: usize)
        ensures
            r == self@.len(),
    {
        self.items.len()
    }

    pub fn is_empty(&self) -> (r: bool)
        ensures
            r == (self@.len() == 0),
    {
        self.items.len() == 0
    }
}

/// The queue `q` after one `enqueue` of each message of `msgs`, in order.
pub open spec fn enqueue_each(q: Seq<Seq<char>>, msgs: Seq<Seq<char>>) -> Seq<Seq<char>>
    decreases msgs.len(),
{
    if msgs.len() == 0 {
        q
    } else {
        enqueue_each(q, msgs.drop_last()).push(msgs.last())
    }
}

/// Enqueuing messages one after another appends them all, in order, and
/// loses none: the queue grows by exactly their number.
pub proof fn lemma_enqueue_each_appends(q: Seq<Seq<char>>, msgs: Seq<Seq<char>>)
    ensures
        enqueue_each(q, msgs) == q + msgs,
        enqueue_each(q, msgs).len() == q.len() + msgs.len(),
    decreases msgs.len(),
{
    if msgs.len() == 0 {
        assert(q + msgs =~= q);
    } else {
        lemma_enqueue_each_appends(q, msgs.drop_last());
        assert((q + msgs.drop_last()).push(msgs.last()) =~= q + msgs);
    }
}

/// Enqueuing messages on an empty queue and then draining it gives back
/// exactly those messages, in the order they were enqueued.
pub proof fn lemma_drain_after_enqueues_is_fifo(msgs: Seq<Seq<char>>)
    ensures
        enqueue_each(Seq::empty(), msgs) == msgs,
{
    lemma_enqueue_each_appends(Seq::empty(), msgs);
    assert(Seq::<Seq<char>>::empty() + msgs =~= msgs);
}

/// What a drain of the queue `q` returns, and the queue it leaves.
pub open spec fn drained(q: Seq<Seq<char>>) -> (Seq<Seq<char>>, Seq<Seq<char>>) {
    (q, Seq::empty())
}

/// A drain of an empty queue returns nothing and leaves the queue as it was;
/// so a second drain right after any drain returns nothing and changes nothing.
pub proof fn lemma_drain_empty_is_idempotent(q: Seq<Seq<char>>)
    ensures
        drained(Seq::empty()) == (Seq::<Seq<char>>::empty(), Seq::<Seq<char>>::empty()),
        drained(drained(q).1).0.len() == 0,
        drained(drained(q).1).1 == drained(q).1,
{
}

} // verus!
