use std::collections::VecDeque;
use vstd::prelude::*;

verus! {

/// What a blocking read decides on the state it finds under the lock:
/// either it can finish with a result now, or it has to wait for a wake-up.
pub enum Step<R> {
    Ready(R),
    Wait,
}

/// The abstract state of a queue: the items in arrival order, and whether
/// the queue still accepts new items.
pub struct QueueModel<T> {
    pub items: Seq<T>,
    pub open: bool,
}

impl<T> QueueModel<T> {
    /// The state after offering `item`: appended while open, dropped once closed.
    pub open spec fn put(self, item: T) -> QueueModel<T> {
        if self.open {
            QueueModel { items: self.items.push(item), open: true }
        } else {
            self
        }
    }

    /// The state after closing: the items stay, new ones are refused.
    pub open spec fn close(self) -> QueueModel<T> {
        QueueModel { items: self.items, open: false }
    }

    /// Whether a reader has to wait: the queue is open and holds nothing.
    pub open spec fn must_wait(self) -> bool {
        self.open && self.items.len() == 0
    }

    /// The state after a reader that does not wait takes what is at the front.
    pub open spec fn after_take(self) -> QueueModel<T> {
        if self.items.len() > 0 {
            QueueModel { items: self.items.drop_first(), open: self.open }
        } else {
            self
        }
    }

    /// What a reader that does not wait takes: the oldest item, or `None`
    /// when the queue is closed and drained.
    pub open spec fn front(self) -> Option<T> {
        if self.items.len() > 0 {
            Some(self.items[0])
        } else {
            None
        }
    }

    /// The state after offering each of `xs` in turn.
    pub open spec fn put_all(self, xs: Seq<T>) -> QueueModel<T>
        decreases xs.len(),
    {
        if xs.len() == 0 {
            self
        } else {
            self.put(xs[0]).put_all(xs.drop_first())
        }
    }

    /// The state that the `n`-th of a run of readers finds.
    pub open spec fn takes_state(self, n: nat) -> QueueModel<T>
        decreases n,
    {
        if n == 0 {
            self
        } else {
            self.after_take().takes_state((n - 1) as nat)
        }
    }

    /// What `n` readers that do not wait take, one after the other.
    pub open spec fn takes(self, n: nat) -> Seq<Option<T>>
        decreases n,
    {
        if n == 0 {
            Seq::empty()
        } else {
            seq![self.front()] + self.after_take().takes((n - 1) as nat)
        }
    }
}

/// Items offered to an open queue are appended, in the order offered.
pub proof fn lemma_put_all_open<T>(m: QueueModel<T>, xs: Seq<T>)
    requires
        m.open,
    ensures
        m.put_all(xs) == (QueueModel { items: m.items + xs, open: true }),
    decreases xs.len(),
{
    if xs.len() > 0 {
        lemma_put_all_open(m.put(xs[0]), xs.drop_first());
        assert(m.items.push(xs[0]) + xs.drop_first() =~= m.items + xs);
    } else {
        assert(m.items + xs =~= m.items);
    }
}

/// Readers that find items never wait, and take them oldest first.
pub proof fn lemma_takes_in_order<T>(m: QueueModel<T>)
    ensures
        m.takes(m.items.len()) == m.items.map_values(|x: T| Some(x)),
        forall|i: nat| i < m.items.len() ==> !#[trigger] m.takes_state(i).must_wait(),
    decreases m.items.len(),
{
    if m.items.len() > 0 {
        let rest = m.after_take();
        lemma_takes_in_order(rest);
        assert(m.takes(m.items.len()) =~= m.items.map_values(|x: T| Some(x)));
        assert forall|i: nat| i < m.items.len() implies !#[trigger] m.takes_state(i).must_wait() by {
            if i > 0 {
                assert(m.takes_state(i) == rest.takes_state((i - 1) as nat));
            }
        }
    } else {
        assert(m.takes(0) =~= m.items.map_values(|x: T| Some(x)));
    }
}

/// First in, first out: on an open queue, every item offered is taken after
/// the items already queued, in the order offered, and no reader waits while
/// any of them is left.
pub proof fn law_fifo<T>(m: QueueModel<T>, xs: Seq<T>)
    requires
        m.open,
    ensures
        m.put_all(xs).takes(m.items.len() + xs.len()) == (m.items + xs).map_values(
            |x: T| Some(x),
        ),
        forall|i: nat|
            i < m.items.len() + xs.len() ==> !#[trigger] m.put_all(xs).takes_state(i).must_wait(),
{
    lemma_put_all_open(m, xs);
    lemma_takes_in_order(m.put_all(xs));
}

/// A closed queue refuses new items, never makes a reader wait, and once
/// drained answers every reader with `None` and stays as it is.
pub proof fn law_closed<T>(m: QueueModel<T>, x: T)
    requires
        !m.open,
    ensures
        m.put(x) == m,
        !m.must_wait(),
        m.items.len() == 0 ==> m.front() is None && m.after_take() == m,
        m.items.len() > 0 ==> m.after_take().items.len() == m.items.len() - 1,
{
}

/// Closing keeps every queued item for the readers that come after.
pub proof fn law_close_keeps_items<T>(m: QueueModel<T>)
    ensures
        m.close().items == m.items,
        !m.close().open,
        m.close().takes(m.items.len()) == m.items.map_values(|x: T| Some(x)),
{
    lemma_takes_in_order(m.close());
}

/// The state that the queue's lock guards.
pub struct QueueInner<T> {
    msgs: VecDeque<T>,
    open: bool,
}

/// A closable first-in first-out queue.
///
/// Readers take the oldest item. While the queue is open and empty a reader
/// waits; once the queue is closed, readers drain what is left and then get
/// `None`, and new items are silently dropped.
pub struct Queue<T>(QueueInner<T>);

impl<T> View for Queue<T> {
    type V = QueueModel<T>;

    closed spec fn view(&self) -> QueueModel<T> {
        QueueModel { items: self.0.msgs@, open: self.0.open }
    }
}

impl<T> Queue<T> {
    /// An empty, open queue.
    pub fn new() -> (q: Self)
        ensures
            q@.items == Seq::<T>::empty(),
            q@.open,
    {
        Queue(QueueInner { msgs: VecDeque::new(), open: true })
    }

    /// Takes the oldest item, or decides that the reader has to wait.
    ///
    /// The reader waits exactly when the queue is open and empty; the state is
    /// then unchanged. Otherwise the result is the oldest item, or `None` once
    /// the queue is closed and drained.
    pub fn get(&mut self) -> (r: Step<Option<T>>)
        ensures
            (r is Wait) == old(self)@.must_wait(),
            r is Wait ==> final(self)@ == old(self)@,
            r matches Step::Ready(x) ==> x == old(self)@.front() && final(self)@
                == old(self)@.after_take(),
    {
        if self.0.open && self.0.msgs.len() == 0 {
            return Step::Wait;
        }
        Step::Ready(self.0.msgs.pop_front())
    }

    /// Like [`get`](#method.get), for a reader with a time limit.
    ///
    /// `timed_out` says whether the reader's last wait ended because the
    /// time limit was reached; the reader then gives up with `None` without
    /// looking at the queue. Otherwise the result is `Some` of what `get`
    /// would take, or the decision to wait.
    pub fn get_timeout(&mut self, timed_out: bool) -> (r: Step<Option<Option<T>>>)
        ensures
            timed_out ==> r == Step::<Option<Option<T>>>::Ready(None) && final(self)@ == old(
                self,
            )@,
            !timed_out ==> (r is Wait) == old(self)@.must_wait(),
            !timed_out && r is Wait ==> final(self)@ == old(self)@,
            !timed_out ==> (r matches Step::Ready(x) ==> x == Some(old(self)@.front())
                && final(self)@ == old(self)@.after_take()),
    {
        if timed_out {
            return Step::Ready(None);
        }
        if self.0.open && self.0.msgs.len() == 0 {
            return Step::Wait;
        }
        Step::Ready(Some(self.0.msgs.pop_front()))
    }

    /// Closes the queue: what is queued stays, new items are refused.
    pub fn close(&mut self)
        ensures
            final(self)@ == old(self)@.close(),
    {
        self.0.open = false;
    }

    /// Appends `item` while the queue is open; drops it once closed.
    ///
    /// Returns whether readers waiting for an item should be woken.
    pub fn put(&mut self, item: T) -> (woken: bool)
        ensures
            final(self)@ == old(self)@.put(item),
            woken == old(self)@.open,
    {
        if !self.0.open {
            return false;
        }
        self.0.msgs.push_back(item);
        true
    }
}

} // verus!
