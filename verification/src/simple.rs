use std::collections::VecDeque;
use vstd::prelude::*;

verus! {

/// The enum used for events
#[derive(Debug, PartialEq)]
pub enum SimpleCallbackEvent<M, N> {
    /// A received message
    Msg(N, M),
    /// A new connection
    Connected(N),
    /// A lost connection
    Disconnected(N),
}

/// The abstract state of a simple callback: its own id and the events not
/// yet retrieved, oldest first.
pub struct SimpleCallbackModel<M, N> {
    pub id: N,
    pub events: Seq<SimpleCallbackEvent<M, N>>,
}

/// The state that the callback's lock guards.
pub struct SimpleCallbackInner<M, N> {
    msgs: VecDeque<SimpleCallbackEvent<M, N>>,
    id: N,
}

/// A simple callback
///
/// It uses the node id as the initialization message, accepts every incoming
/// connection, and stores all events in a queue of
/// [`SimpleCallbackEvent`](enum.SimpleCallbackEvent.html).
pub struct SimpleCallback<M, N>(SimpleCallbackInner<M, N>);

impl<M, N> View for SimpleCallback<M, N> {
    type V = SimpleCallbackModel<M, N>;

    closed spec fn view(&self) -> SimpleCallbackModel<M, N> {
        SimpleCallbackModel { id: self.0.id, events: self.0.msgs@ }
    }
}

impl<M, N> SimpleCallback<M, N> {
    /// Creates a new callback
    ///
    /// The parameter `id` is used as this node's id and should be unique.
    pub fn new(id: N) -> (cb: Self)
        ensures
            cb@.id == id,
            cb@.events == Seq::<SimpleCallbackEvent<M, N>>::empty(),
    {
        SimpleCallback(SimpleCallbackInner { msgs: VecDeque::new(), id: id })
    }

    /// Retrieves the oldest event from the queue
    ///
    /// `None` means that the queue is empty and the caller has to wait for an
    /// event to arrive; the state is then unchanged.
    pub fn recv(&mut self) -> (r: Option<SimpleCallbackEvent<M, N>>)
        ensures
            final(self)@.id == old(self)@.id,
            old(self)@.events.len() == 0 ==> r is None && final(self)@.events == old(self)@.events,
            old(self)@.events.len() > 0 ==> r == Some(old(self)@.events[0]) && final(self)@.events
                == old(self)@.events.drop_first(),
    {
        if self.0.msgs.len() > 0 {
            return self.0.msgs.pop_front();
        }
        None
    }
}

impl<M, N: Clone> SimpleCallback<M, N> {
    /// This node's id: a clone of the id given at creation.
    pub fn node_id(&self) -> (id: N)
        ensures
            cloned(self@.id, id),
    {
        self.0.id.clone()
    }

    /// The initialization message: the node's own id.
    pub fn create_init_msg(&self) -> (init: N)
        ensures
            cloned(self@.id, init),
    {
        self.0.id.clone()
    }

    /// Accepts every peer: the peer's id is its initialization message.
    pub fn handle_init_msg(&self, id: &N) -> (r: Option<N>)
        ensures
            r matches Some(n) && cloned(*id, n),
    {
        Some(id.clone())
    }

    /// Records a new connection.
    pub fn on_connected(&mut self, id: &N)
        ensures
            final(self)@.id == old(self)@.id,
            exists|n: N|
                #[trigger] cloned(*id, n) && final(self)@.events == old(self)@.events.push(
                    SimpleCallbackEvent::Connected(n),
                ),
    {
        let n = id.clone();
        assert(cloned(*id, n));
        self.0.msgs.push_back(SimpleCallbackEvent::Connected(n));
    }

    /// Records a lost connection.
    pub fn on_disconnected(&mut self, id: &N)
        ensures
            final(self)@.id == old(self)@.id,
            exists|n: N|
                #[trigger] cloned(*id, n) && final(self)@.events == old(self)@.events.push(
                    SimpleCallbackEvent::Disconnected(n),
                ),
    {
        let n = id.clone();
        assert(cloned(*id, n));
        self.0.msgs.push_back(SimpleCallbackEvent::Disconnected(n));
    }

    /// Records a received message.
    pub fn handle_message(&mut self, src: &N, msg: M)
        ensures
            final(self)@.id == old(self)@.id,
            exists|n: N|
                #[trigger] cloned(*src, n) && final(self)@.events == old(self)@.events.push(
                    SimpleCallbackEvent::Msg(n, msg),
                ),
    {
        let n = src.clone();
        assert(cloned(*src, n));
        self.0.msgs.push_back(SimpleCallbackEvent::Msg(n, msg));
    }
}

/// Events are retrieved oldest first: recording a new event never changes
/// which event `recv` retrieves next, nor the order of the rest, and on an
/// empty queue the new event is the next one retrieved.
pub proof fn law_recv_oldest_first<M, N>(
    events: Seq<SimpleCallbackEvent<M, N>>,
    ev: SimpleCallbackEvent<M, N>,
)
    ensures
        events.len() > 0 ==> events.push(ev)[0] == events[0] && events.push(ev).drop_first()
            == events.drop_first().push(ev),
        events.len() == 0 ==> events.push(ev)[0] == ev && events.push(ev).drop_first()
            == events,
{
    if events.len() > 0 {
        assert(events.push(ev).drop_first() =~= events.drop_first().push(ev));
    } else {
        assert(events.push(ev).drop_first() =~= events);
    }
}

} // verus!
