use vstd::prelude::*;

verus! {

/// Asks for a new game.
#[derive(Clone, Copy, Debug, PartialEq, Eq, Structural)]
pub struct GameStart {}

/// Tells that the player died, with the score reached.
#[derive(Clone, Copy, Debug, PartialEq, Eq, Structural)]
pub struct GameOver {
    pub score: u32,
}

/// The events of one kind raised during the current frame, oldest first.
/// Readers act on the last one only.
pub struct Events<E> {
    pub queue: Vec<E>,
}

impl<E> View for Events<E> {
    type V = Seq<E>;

    open spec fn view(&self) -> Seq<E> {
        self.queue@
    }
}

/// The event that readers act on: the last one raised, if any.
pub open spec fn latest<E>(events: Seq<E>) -> Option<E> {
    if events.len() == 0 {
        None
    } else {
        Some(events.last())
    }
}

impl<E: Copy> Events<E> {
    /// A queue with no event.
    pub fn new() -> (events: Self)
        ensures
            events@ == Seq::<E>::empty(),
    {
        Events { queue: Vec::new() }
    }

    /// Raises an event.
    pub fn send(&mut self, event: E)
        ensures
            final(self)@ == old(self)@.push(event),
    {
        self.queue.push(event);
    }

    /// The last event raised, if any.
    pub fn last(&self) -> (event: Option<E>)
        ensures
            event == latest(self@),
    {
        let n: usize = self.queue.len();
        if n == 0 {
            None
        } else {
            Some(self.queue[n - 1])
        }
    }

    /// Forgets the events of the frame.
    pub fn clear(&mut self)
        ensures
            final(self)@ == Seq::<E>::empty(),
    {
        self.queue.clear();
    }
}

} // verus!
