//! Work deferred to the UI thread.
//!
//! Any thread may push, under the lock that the owner of the queue holds it
//! by; only the UI thread drains. The lock makes every push and every drain
//! one step, so what concurrent producers do to the queue is what some
//! sequence of pushes does to it.

use vstd::prelude::*;

verus! {

/// An opaque token that is handed back to the handler when the UI thread is
/// idle.
#[derive(Debug, Clone, Copy, PartialEq, Eq, Structural)]
pub struct IdleToken(pub usize);

impl IdleToken {
    /// A token with the given raw value.
    pub fn new(raw: usize) -> (token: IdleToken)
        ensures
            token == IdleToken(raw),
    {
        IdleToken(raw)
    }
}

/// A change to the window that must wait until the notification that asked
/// for it has been answered, because the platform forbids it before. `S` is
/// a size and `P` a position, in the units of the one who asks.
#[derive(Debug)]
pub enum DeferredOp<S, P> {
    /// Give the window this size.
    SetSize(S),
    /// Move the window here.
    SetPosition(P),
}

/// What can wait for the UI thread. `C` is what is called with the handler.
pub enum IdleKind<C, S, P> {
    /// Called once, with the handler.
    Callback(C),
    /// Handed to the handler's idle hook.
    Token(IdleToken),
    /// Done to the window.
    DeferredOp(DeferredOp<S, P>),
}

/// The queue of one window: items in the order in which they were pushed.
pub struct IdleQueue<T> {
    items: Vec<T>,
}

impl<T> View for IdleQueue<T> {
    type V = Seq<T>;

    closed spec fn view(&self) -> Seq<T> {
        self.items@
    }
}

impl<T> IdleQueue<T> {
    /// An empty queue.
    pub fn new() -> (queue: IdleQueue<T>)
        ensures
            queue@ == Seq::<T>::empty(),
    {
        IdleQueue { items: Vec::new() }
    }

    /// The number of items that wait.
    pub fn len(&self) -> (n: usize)
        ensures
            n == self@.len(),
    {
        self.items.len()
    }

    /// Whether nothing waits.
    pub fn is_empty(&self) -> (empty: bool)
        ensures
            empty == (self@.len() == 0),
    {
        self.items.len() == 0
    }

    /// Appends `item`. Returns whether the UI thread must be woken: it must
    /// when the queue was empty, and only then, so that any number of pushes
    /// before the next drain wake it once.
    pub fn push(&mut self, item: T) -> (wake: bool)
        ensures
            final(self)@ == old(self)@.push(item),
            wake == (old(self)@.len() == 0),
    {
        let wake = self.items.len() == 0;
        self.items.push(item);
        wake
    }

    /// Takes everything out, in the order in which it was pushed, and leaves
    /// the queue empty: what is pushed from now on is for the next drain.
    pub fn drain(&mut self) -> (items: Vec<T>)
        ensures
            items@ == old(self)@,
            final(self)@ == Seq::<T>::empty(),
    {
        let mut taken: Vec<T> = Vec::new();
        std::mem::swap(&mut self.items, &mut taken);
        taken
    }
}

/// The queue after `items` were pushed one after the other.
pub open spec fn pushed<T>(queue: Seq<T>, items: Seq<T>) -> Seq<T>
    decreases items.len(),
{
    if items.len() == 0 {
        queue
    } else {
        pushed(queue.push(items[0]), items.subrange(1, items.len() as int))
    }
}

/// How many of these pushes ask for the UI thread to be woken.
pub open spec fn wakes<T>(queue: Seq<T>, items: Seq<T>) -> nat
    decreases items.len(),
{
    if items.len() == 0 {
        0
    } else {
        (if queue.len() == 0 {
            1nat
        } else {
            0nat
        }) + wakes(queue.push(items[0]), items.subrange(1, items.len() as int))
    }
}

/// Pushing appends.
pub proof fn lemma_pushed_appends<T>(queue: Seq<T>, items: Seq<T>)
    ensures
        pushed(queue, items) == queue + items,
    decreases items.len(),
{
    if items.len() == 0 {
        assert(queue + items =~= queue);
    } else {
        let rest = items.subrange(1, items.len() as int);
        lemma_pushed_appends(queue.push(items[0]), rest);
        assert(queue.push(items[0]) + rest =~= queue + items);
    }
}

/// Pushes onto a queue that is not empty wake nobody.
pub proof fn lemma_no_wake_when_waiting<T>(queue: Seq<T>, items: Seq<T>)
    requires
        queue.len() > 0,
    ensures
        wakes(queue, items) == 0,
    decreases items.len(),
{
    if items.len() > 0 {
        lemma_no_wake_when_waiting(queue.push(items[0]), items.subrange(1, items.len() as int));
    }
}

/// Whatever the producers and however their pushes fall in time: when
/// `items` is the order in which the pushes took the lock, starting from an
/// empty queue, then exactly one of them asks for a wake, the first, and the
/// drain that follows hands out exactly `items`, in that order. Nothing is
/// dropped and nothing comes twice.
pub proof fn lemma_one_wake_one_drain<T>(items: Seq<T>)
    requires
        items.len() > 0,
    ensures
        wakes(Seq::<T>::empty(), items) == 1,
        pushed(Seq::<T>::empty(), items) == items,
{
    lemma_pushed_appends(Seq::<T>::empty(), items);
    assert(Seq::<T>::empty() + items =~= items);
    lemma_no_wake_when_waiting(
        Seq::<T>::empty().push(items[0]),
        items.subrange(1, items.len() as int),
    );
}

/// What one producer pushed comes out in the order in which it pushed: of
/// items tagged with their producer, those of `producer` stand in the drain
/// as they stand in the order of the pushes.
pub proof fn lemma_producer_order_kept<T>(items: Seq<(int, T)>, producer: int)
    ensures
        pushed(Seq::<(int, T)>::empty(), items).filter(|item: (int, T)| item.0 == producer)
            == items.filter(|item: (int, T)| item.0 == producer),
{
    lemma_pushed_appends(Seq::<(int, T)>::empty(), items);
    assert(Seq::<(int, T)>::empty() + items =~= items);
}

} // verus!
