use vstd::prelude::*;

verus! {

/// Why a message was not enqueued.
#[derive(Clone, Copy, Debug, PartialEq, Eq, Structural)]
pub enum QueueError {
    /// The queue cannot take another message.
    Unavailable,
}

/// Messages naming tasks that are ready for extraction, oldest first.
pub struct WorkQueue {
    items: Vec<String>,
    capacity: usize,
}

impl View for WorkQueue {
    type V = Seq<Seq<char>>;

    closed spec fn view(&self) -> Seq<Seq<char>> {
        self.items@.map_values(|s: String| s@)
    }
}

impl WorkQueue {
    /// No further message fits.
    pub closed spec fn is_full_spec(&self) -> bool {
        self.items@.len() >= self.capacity
    }

    /// A queue that holds at most `capacity` pending messages.
    pub fn new(capacity: usize) -> (r: WorkQueue)
        ensures
            r@ == Seq::<Seq<char>>::empty(),
            r.is_full_spec() <==> capacity == 0,
    {
        let r = WorkQueue { items: Vec::new(), capacity };
        assert(r@ =~= Seq::<Seq<char>>::empty());
        r
    }

    pub fn is_full(&self) -> (r: bool)
        ensures
            r == self.is_full_spec(),
    {
        self.items.len() >= self.capacity
    }

    /// Number of pending messages.
    pub fn len(&self) -> (r: usize)
        ensures
            r == self@.len(),
    {
        self.items.len()
    }

    /// Appends a message for task `id`, unless the queue is full.
    pub fn enqueue(&mut self, id: String) -> (r: Result<(), QueueError>)
        ensures
            old(self).is_full_spec() ==> r == Err::<(), QueueError>(QueueError::Unavailable)
                && final(self)@ == old(self)@ && final(self).is_full_spec(),
            !old(self).is_full_spec() ==> r is Ok && final(self)@ == old(self)@.push(id@),
    {
        if self.is_full() {
            return Err(QueueError::Unavailable);
        }
        let ghost v = id@;
        self.items.push(id);
        assert(self@ =~= old(self)@.push(v));
        Ok(())
    }

    /// Takes the oldest message, if any.
    pub fn dequeue(&mut self) -> (r: Option<String>)
        ensures
            old(self)@.len() == 0 ==> r is None && final(self)@ == old(self)@,
            old(self)@.len() > 0 ==> (r matches Some(id) && id@ == old(self)@[0]) && final(self)@
                == old(self)@.drop_first(),
    {
        if self.items.len() == 0 {
            return None;
        }
        let id = self.items.remove(0);
        assert(self@ =~= old(self)@.drop_first());
        Some(id)
    }
}

} // verus!
