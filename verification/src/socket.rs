use std::collections::HashMap;
use std::fmt::Debug;
use std::hash::Hash;
use std::marker::PhantomData;
use std::time::Duration;
use vstd::prelude::*;
use vstd::laws_eq::obeys_concrete_eq;
use vstd::std_specs::cmp::PartialEqSpec;
use vstd::std_specs::hash::obeys_key_model;
use crate::queue::{Queue, QueueModel, Step};

verus! {

broadcast use vstd::std_specs::hash::group_hash_axioms;

/// The trait used for messages
///
/// This is the main type of messages that will be exchanged between nodes.
/// It is implemented automatically for all types that fulfill the requirements.
pub trait Message: Send + Sync + Clone + 'static {}

impl<T> Message for T where T: Send + Sync + Clone + 'static {}

/// The trait used for node identifiers
///
/// It is implemented automatically for all types that fulfill the requirements.
pub trait NodeId: Send + Sync + Debug + Clone + Eq + Hash + 'static {}

impl<T> NodeId for T where T: Send + Sync + Debug + Clone + Eq + Hash + 'static {}

/// The trait used for initialization messages
///
/// This is the type of message that is exchanged first on every connection.
/// It is implemented automatically for all types that fulfill the requirements.
pub trait InitMessage: Send + Sync + Clone + Debug + 'static {}

impl<T> InitMessage for T where T: Send + Sync + Clone + Debug + 'static {}

/// What node ids are taken to be: hashing is deterministic, `==` is
/// identity, and a clone is identical to the value it was made from (the laws of `Eq`,
/// `Hash` and `Clone` that a registry keyed by node id relies on).
pub open spec fn lawful_ids<N: NodeId>() -> bool {
    &&& obeys_key_model::<N>()
    &&& obeys_concrete_eq::<N>()
    &&& forall|a: N, b: N| #[trigger] cloned(a, b) ==> a == b
}

/// Integer node ids obey the laws of [`lawful_ids`].
pub proof fn lemma_u64_ids_lawful()
    ensures
        lawful_ids::<u64>(),
{
    broadcast use vstd::laws_eq::group_laws_eq;

    assert forall|a: u64, b: u64| #[trigger] cloned(a, b) implies a == b by {}
}

#[verifier::external_type_specification]
#[verifier::external_body]
pub struct ExIoError(std::io::Error);

/// The error type used throughout the crate
#[derive(Debug)]
pub enum Error<N: NodeId> {
    /// The node has already been closed
    AlreadyClosed,
    /// Failed to open a node socket
    OpenError(std::io::Error),
    /// Failed to establish a connection
    ConnectionError(std::io::Error),
    /// Failed to send a message
    SendError,
    /// Failed to receive a message
    ReadError,
    /// Failed to send a message because there is no connection to the destination
    NotConnected(N),
    /// Connection aborted in the initialization phase
    ConnectionAborted,
    /// Failed to close a socket
    CloseError(std::io::Error),
}

/// The enum used for events
#[derive(PartialEq, Debug)]
pub enum Event<M: Message, N: NodeId, I: InitMessage> {
    /// A received message
    ///
    /// This event is emitted whenever a new message is received from any connection.
    Message(N, M),
    /// An incoming connection request
    ///
    /// This event is emitted whenever a new incoming connection is established and the
    /// initialization message has been received. The connection is not registered
    /// until the request is accepted.
    ConnectionRequest(ConnectionRequest<M, N, I>),
    /// A new established connection, usable to send messages
    Connected(N),
    /// A lost connection
    ///
    /// Emitted after the connection has been unregistered.
    Disconnected(N),
    /// Node closing: all connections are still active
    Closing,
    /// Node closed: all connections have been closed
    Closed,
}

/// The request to establish a connection
///
/// It is created for every new connection once the initialization messages
/// have been exchanged, before the connection is registered. `socket` is the
/// handle under which the connection's socket is kept.
///
/// To accept the request, `accept` has to be called; to reject it, `reject`.
#[derive(Debug)]
pub struct ConnectionRequest<M: Message, N: NodeId, I: InitMessage> {
    socket: u64,
    init: I,
    node_id: N,
    messages: PhantomData<M>,
}

impl<M: Message, N: NodeId, I: InitMessage> ConnectionRequest<M, N, I> {
    /// The handle of the request's socket.
    pub closed spec fn spec_socket(&self) -> u64 {
        self.socket
    }

    /// The initialization message that the remote side sent.
    pub closed spec fn spec_init(&self) -> I {
        self.init
    }

    /// The node id that the remote side sent.
    pub closed spec fn spec_node_id(&self) -> N {
        self.node_id
    }

    /// A request for the connection kept under `socket`, whose remote side
    /// sent `init` and `node_id`.
    pub fn new(socket: u64, init: I, node_id: N) -> (r: Self)
        ensures
            r.spec_socket() == socket,
            r.spec_init() == init,
            r.spec_node_id() == node_id,
    {
        ConnectionRequest { socket, init, node_id, messages: PhantomData }
    }

    /// The handle of the request's socket.
    pub fn socket(&self) -> (s: u64)
        ensures
            s == self.spec_socket(),
    {
        self.socket
    }

    /// The initialization message received from the remote side.
    pub fn init_message(&self) -> (i: &I)
        ensures
            *i == self.spec_init(),
    {
        &self.init
    }

    /// The node id received from the remote side.
    pub fn node_id(&self) -> (n: &N)
        ensures
            *n == self.spec_node_id(),
    {
        &self.node_id
    }

    /// Accept the connection
    ///
    /// The connection is registered in `node` as the connection to the peer,
    /// and is usable for message exchange afterwards.
    pub fn accept(self, node: &mut Node<M, N, I>)
        requires
            lawful_ids::<N>(),
        ensures
            final(node)@ == old(node)@.add_connection(self.spec_node_id(), self.spec_socket()),
    {
        node.accept_connection(self.node_id, self.socket);
    }

    /// Reject the connection
    ///
    /// Returns the handle of the socket, which is to be closed.
    pub fn reject(self) -> (socket: u64)
        ensures
            socket == self.spec_socket(),
    {
        self.socket
    }
}


/// The duration of `secs` whole seconds, as `Duration::from_secs` makes it.
pub uninterp spec fn duration_from_secs(secs: u64) -> Duration;

/// `std::time::Duration::from_secs`: the result depends on `secs` alone.
#[verifier::external_body]
fn seconds(secs: u64) -> (d: Duration)
    ensures
        d == duration_from_secs(secs),
{
    Duration::from_secs(secs)
}

/// The default connection timeout and statistics half-life, in seconds.
pub const DEFAULT_TIMEOUT_SECS: u64 = 60;

/// Where a message sent by a node has to go.
#[derive(Debug, PartialEq, Eq)]
pub enum Delivery {
    /// The destination is the node itself: the message has been queued as an event.
    Local,
    /// The message has to be written to the connection kept under this handle.
    Remote(u64),
}

/// The abstract state of a node.
#[verifier::reject_recursive_types(N)]
pub struct NodeModel<M: Message, N: NodeId, I: InitMessage> {
    pub node_id: N,
    pub events: QueueModel<Event<M, N, I>>,
    pub sockets: Seq<u64>,
    pub connections: Map<N, u64>,
    pub closed: bool,
    pub connection_timeout: Duration,
    pub stats_halflife_time: Duration,
    pub init_message: I,
}

/// What a reader of the event queue gets for what it takes: the event, or
/// `Closed` once the queue is closed and drained.
pub open spec fn event_or_closed<M: Message, N: NodeId, I: InitMessage>(
    e: Option<Event<M, N, I>>,
) -> Event<M, N, I> {
    match e {
        Some(ev) => ev,
        None => Event::Closed,
    }
}

impl<M: Message, N: NodeId, I: InitMessage> NodeModel<M, N, I> {
    /// The state after queueing event `e`.
    pub open spec fn emit(self, e: Event<M, N, I>) -> Self {
        NodeModel { events: self.events.put(e), ..self }
    }

    /// The state after registering the connection kept under `socket` as the
    /// connection to `id`, and announcing it.
    pub open spec fn add_connection(self, id: N, socket: u64) -> Self {
        NodeModel {
            connections: self.connections.insert(id, socket),
            events: self.events.put(Event::Connected(id)),
            ..self
        }
    }

    /// The state after the connection kept under `socket` to `id` is lost:
    /// if it is the registered connection to `id`, it is unregistered and
    /// `Disconnected` announced; a duplicate connection that is not
    /// registered leaves the state as it is.
    pub open spec fn del_connection(self, id: N, socket: u64) -> Self {
        if self.connections.contains_key(id) && self.connections[id] == socket {
            NodeModel {
                connections: self.connections.remove(id),
                events: self.events.put(Event::Disconnected(id)),
                ..self
            }
        } else {
            self
        }
    }

    /// The state after closing starts: `Closing` is announced and the node
    /// refuses new sockets.
    pub open spec fn start_close(self) -> Self {
        NodeModel { events: self.events.put(Event::Closing), closed: true, ..self }
    }

    /// The state after closing ends: `Closed` is announced and the event queue closed.
    pub open spec fn finish_close(self) -> Self {
        NodeModel { events: self.events.put(Event::Closed).close(), ..self }
    }
}

/// The inner struct that holds all node data
#[verifier::reject_recursive_types(N)]
pub struct NodeInner<M: Message, N: NodeId, I: InitMessage> {
    node_id: N,
    events: Queue<Event<M, N, I>>,
    sockets: Vec<u64>,
    connections: HashMap<N, u64>,
    closed: bool,
    connection_timeout: Duration,
    stats_halflife_time: Duration,
    init_message: I,
}

/// The node struct
///
/// It keeps the node's id and initialization message, its event queue, the
/// handles of its listening sockets, and its registry of connections: the
/// handle of the connection to each connected node.
///
/// * `M` is the type of the messages that are exchanged.
/// * `N` is the type of the node ids that identify and distinguish nodes.
/// * `I` is the type of the initialization message exchanged first on every connection.
#[verifier::reject_recursive_types(N)]
pub struct Node<M: Message, N: NodeId, I: InitMessage>(NodeInner<M, N, I>);

impl<M: Message, N: NodeId, I: InitMessage> View for Node<M, N, I> {
    type V = NodeModel<M, N, I>;

    closed spec fn view(&self) -> NodeModel<M, N, I> {
        NodeModel {
            node_id: self.0.node_id,
            events: self.0.events@,
            sockets: self.0.sockets@,
            connections: self.0.connections@,
            closed: self.0.closed,
            connection_timeout: self.0.connection_timeout,
            stats_halflife_time: self.0.stats_halflife_time,
            init_message: self.0.init_message,
        }
    }
}

impl<M: Message, N: NodeId, I: InitMessage> Node<M, N, I> {
    /// Create a new node
    ///
    /// `node_id` must be a unique identifier for this node and `init_message`
    /// is the first message sent to other nodes on every connection. The node
    /// starts open, with no sockets, no connections, no events, and a
    /// connection timeout and statistics half-life of 60 seconds.
    pub fn new(node_id: N, init_message: I) -> (n: Self)
        ensures
            n@ == (NodeModel::<M, N, I> {
                node_id,
                events: QueueModel { items: Seq::empty(), open: true },
                sockets: Seq::empty(),
                connections: Map::empty(),
                closed: false,
                connection_timeout: duration_from_secs(60),
                stats_halflife_time: duration_from_secs(60),
                init_message,
            }),
    {
        Node(
            NodeInner {
                node_id: node_id,
                events: Queue::new(),
                sockets: Vec::new(),
                connections: HashMap::new(),
                closed: false,
                connection_timeout: seconds(DEFAULT_TIMEOUT_SECS),
                stats_halflife_time: seconds(DEFAULT_TIMEOUT_SECS),
                init_message: init_message,
            },
        )
    }

    /// Set the connection timeout
    ///
    /// Whenever a connection is idle longer than this timeout, it will be closed.
    /// Changes only affect connections created after the change.
    pub fn set_connection_timeout(&mut self, dur: Duration)
        ensures
            final(self)@ == (NodeModel { connection_timeout: dur, ..old(self)@ }),
    {
        self.0.connection_timeout = dur;
    }

    /// The connection timeout
    pub fn connection_timeout(&self) -> (d: Duration)
        ensures
            d == self@.connection_timeout,
    {
        self.0.connection_timeout
    }

    /// Set the statistics half-life time
    ///
    /// It is the parameter of the rolling averages of the sending and receiving
    /// rates. Changes only affect connections created after the change.
    pub fn set_stats_halflife_time(&mut self, dur: Duration)
        ensures
            final(self)@ == (NodeModel { stats_halflife_time: dur, ..old(self)@ }),
    {
        self.0.stats_halflife_time = dur;
    }

    /// The statistics half-life time
    pub fn stats_halflife_time(&self) -> (d: Duration)
        ensures
            d == self@.stats_halflife_time,
    {
        self.0.stats_halflife_time
    }

    /// Set the initialization message
    ///
    /// This message is sent first on all new connections and must identify the node.
    pub fn set_init_message(&mut self, init: I)
        ensures
            final(self)@ == (NodeModel { init_message: init, ..old(self)@ }),
    {
        self.0.init_message = init;
    }

    /// The initialization message
    pub fn init_message(&self) -> (i: I)
        ensures
            cloned(self@.init_message, i),
    {
        self.0.init_message.clone()
    }

    /// The id of this node
    pub fn node_id(&self) -> (n: N)
        ensures
            cloned(self@.node_id, n),
    {
        self.0.node_id.clone()
    }

    /// Receive an event
    ///
    /// Takes the oldest queued event. When none is queued and the node is not
    /// closed, the caller has to wait for one (the state is then unchanged).
    /// Once the node has been closed and the queue drained, the event is `Closed`.
    pub fn receive(&mut self) -> (r: Step<Event<M, N, I>>)
        ensures
            (r is Wait) == old(self)@.events.must_wait(),
            r is Wait ==> final(self)@ == old(self)@,
            r matches Step::Ready(e) ==> e == event_or_closed(old(self)@.events.front())
                && final(self)@ == (NodeModel { events: old(self)@.events.after_take(), ..old(self)@ }),
    {
        match self.0.events.get() {
            Step::Ready(Some(evt)) => Step::Ready(evt),
            Step::Ready(None) => Step::Ready(Event::Closed),
            Step::Wait => Step::Wait,
        }
    }

    /// Receive an event with timeout
    ///
    /// `timed_out` says whether the caller's last wait ended because the time
    /// limit was reached: the result is then `None`. Otherwise it is `Some` of
    /// what [`receive`](#method.receive) would return, or the decision to wait.
    pub fn receive_timeout(&mut self, timed_out: bool) -> (r: Step<Option<Event<M, N, I>>>)
        ensures
            timed_out ==> r == Step::<Option<Event<M, N, I>>>::Ready(None) && final(self)@ == old(
                self,
            )@,
            !timed_out ==> (r is Wait) == old(self)@.events.must_wait(),
            !timed_out && r is Wait ==> final(self)@ == old(self)@,
            !timed_out ==> (r matches Step::Ready(e) ==> e == Some(
                event_or_closed(old(self)@.events.front()),
            ) && final(self)@ == (NodeModel { events: old(self)@.events.after_take(), ..old(self)@ })),
    {
        match self.0.events.get_timeout(timed_out) {
            Step::Ready(Some(Some(evt))) => Step::Ready(Some(evt)),
            Step::Ready(Some(None)) => Step::Ready(Some(Event::Closed)),
            Step::Ready(None) => Step::Ready(None),
            Step::Wait => Step::Wait,
        }
    }

    /// Queues a message received from `src`.
    pub fn handle_message(&mut self, src: N, msg: M)
        ensures
            final(self)@ == old(self)@.emit(Event::Message(src, msg)),
    {
        self.0.events.put(Event::Message(src, msg));
    }

    /// Queues an incoming connection request for the user to accept or reject.
    pub fn handle_connection_request(&mut self, req: ConnectionRequest<M, N, I>)
        ensures
            final(self)@ == old(self)@.emit(Event::ConnectionRequest(req)),
    {
        self.0.events.put(Event::ConnectionRequest(req));
    }

    /// Registers the connection kept under `socket` as the connection to `id`,
    /// replacing any earlier one, and announces it with `Connected`.
    pub fn add_connection(&mut self, id: N, socket: u64)
        requires
            lawful_ids::<N>(),
        ensures
            final(self)@ == old(self)@.add_connection(id, socket),
    {
        let key = id.clone();
        assert(cloned(id, key));
        self.0.connections.insert(key, socket);
        self.0.events.put(Event::Connected(id));
    }

    /// Handles the loss of the connection kept under `socket` to `id`.
    ///
    /// If it is the registered connection to `id`, it is unregistered and the
    /// loss announced with `Disconnected`. The loss of a duplicate connection
    /// to the same node, which is not registered, changes nothing and is not
    /// announced.
    pub fn del_connection(&mut self, id: &N, socket: u64)
        requires
            lawful_ids::<N>(),
        ensures
            final(self)@ == old(self)@.del_connection(*id, socket),
    {
        match self.0.connections.get(id) {
            Some(h) => {
                if *h != socket {
                    return;
                }
            },
            None => {
                return;
            },
        }
        self.0.connections.remove(id);
        let n = id.clone();
        assert(cloned(*id, n));
        self.0.events.put(Event::Disconnected(n));
    }

    /// The handle of the connection to `id`, if there is one.
    pub fn get_connection(&self, id: &N) -> (r: Option<u64>)
        requires
            lawful_ids::<N>(),
        ensures
            r == (if self@.connections.contains_key(*id) {
                Some(self@.connections[*id])
            } else {
                None
            }),
    {
        match self.0.connections.get(id) {
            Some(h) => Some(*h),
            None => None,
        }
    }

    /// Whether this node is connected to the given node
    pub fn is_connected(&self, id: &N) -> (r: bool)
        requires
            lawful_ids::<N>(),
        ensures
            r == self@.connections.contains_key(*id),
    {
        self.0.connections.contains_key(id)
    }

    /// The registry of connections: the handle of the connection to each connected node.
    pub fn connections(&self) -> (c: &HashMap<N, u64>)
        ensures
            c@ == self@.connections,
    {
        &self.0.connections
    }

    /// The handles of the listening sockets, in the order they were opened.
    pub fn listeners(&self) -> (l: &Vec<u64>)
        ensures
            l@ == self@.sockets,
    {
        &self.0.sockets
    }

    /// Send a message
    ///
    /// A message to the node itself is queued at once as a `Message` event.
    /// A message to a connected node has to be written to that connection,
    /// whose handle is returned. Otherwise the result is `NotConnected`.
    pub fn send(&mut self, dst: &N, msg: &M) -> (r: Result<Delivery, Error<N>>)
        requires
            lawful_ids::<N>(),
        ensures
            *dst == old(self)@.node_id ==> r == Ok::<Delivery, Error<N>>(Delivery::Local) && exists|
                m: M,
            |
                #[trigger] cloned(*msg, m) && final(self)@ == old(self)@.emit(
                    Event::Message(*dst, m),
                ),
            *dst != old(self)@.node_id && old(self)@.connections.contains_key(*dst) ==> r == Ok::<
                Delivery,
                Error<N>,
            >(Delivery::Remote(old(self)@.connections[*dst])) && final(self)@ == old(self)@,
            *dst != old(self)@.node_id && !old(self)@.connections.contains_key(*dst) ==> (r matches Err(
                Error::NotConnected(d),
            ) && d == *dst) && final(self)@ == old(self)@,
    {
        proof {
            reveal(obeys_concrete_eq);
        }
        let is_self = dst.eq(&self.0.node_id);
        assert(is_self == (*dst == self@.node_id));
        if is_self {
            let d = dst.clone();
            let m = msg.clone();
            assert(cloned(*dst, d) && cloned(*msg, m));
            self.handle_message(d, m);
            return Ok(Delivery::Local);
        }
        match self.get_connection(dst) {
            Some(socket) => Ok(Delivery::Remote(socket)),
            None => {
                let d = dst.clone();
                assert(cloned(*dst, d));
                Err(Error::NotConnected(d))
            },
        }
    }

    /// Whether the node may open another listening socket: not once it is closed.
    pub fn listen(&self) -> (r: Result<(), Error<N>>)
        ensures
            r is Ok <==> !self@.closed,
            r is Err ==> r matches Err(Error::AlreadyClosed),
    {
        if self.0.closed {
            return Err(Error::AlreadyClosed);
        }
        Ok(())
    }

    /// Registers the outcome of opening a listening socket: the handle it is
    /// kept under, or the failure to open it, which becomes `OpenError`.
    pub fn add_listener(&mut self, bound: Result<u64, std::io::Error>) -> (r: Result<u64, Error<N>>)
        ensures
            bound matches Ok(h) ==> r == Ok::<u64, Error<N>>(h) && final(self)@ == (NodeModel {
                sockets: old(self)@.sockets.push(h),
                ..old(self)@
            }),
            bound matches Err(e) ==> r == Err::<u64, Error<N>>(Error::OpenError(e)) && final(self)@
                == old(self)@,
    {
        match bound {
            Ok(h) => {
                self.0.sockets.push(h);
                Ok(h)
            },
            Err(e) => Err(Error::OpenError(e)),
        }
    }

    /// Whether the node may open an outgoing connection: not once it is closed.
    pub fn connect_request(&self) -> (r: Result<(), Error<N>>)
        ensures
            r is Ok <==> !self@.closed,
            r is Err ==> r matches Err(Error::AlreadyClosed),
    {
        if self.0.closed {
            return Err(Error::AlreadyClosed);
        }
        Ok(())
    }

    /// Accepts an outgoing connection request at once and returns the peer's id.
    pub fn connect(&mut self, req: ConnectionRequest<M, N, I>) -> (id: N)
        requires
            lawful_ids::<N>(),
        ensures
            id == req.spec_node_id(),
            final(self)@ == old(self)@.add_connection(req.spec_node_id(), req.spec_socket()),
    {
        let id = req.node_id().clone();
        assert(cloned(req.spec_node_id(), id));
        req.accept(self);
        id
    }

    /// Registers an accepted connection and announces it.
    pub fn accept_connection(&mut self, id: N, socket: u64)
        requires
            lawful_ids::<N>(),
        ensures
            final(self)@ == old(self)@.add_connection(id, socket),
    {
        self.add_connection(id, socket);
    }

    /// Starts closing the node: `Closing` is announced while all connections
    /// are still usable, and from now on no sockets or connections are opened.
    pub fn start_close(&mut self)
        ensures
            final(self)@ == old(self)@.start_close(),
    {
        self.0.events.put(Event::Closing);
        self.0.closed = true;
    }

    /// Takes the most recently opened listening socket that is still
    /// registered, to be shut down; `None` when all have been taken.
    pub fn next_listener_to_close(&mut self) -> (r: Option<u64>)
        ensures
            old(self)@.sockets.len() == 0 ==> r is None && final(self)@ == old(self)@,
            old(self)@.sockets.len() > 0 ==> r == Some(old(self)@.sockets.last()) && final(self)@
                == (NodeModel { sockets: old(self)@.sockets.drop_last(), ..old(self)@ }),
    {
        self.0.sockets.pop()
    }

    /// Finishes closing the node: `Closed` is announced as the last event and
    /// the event queue is closed.
    pub fn finish_close(&mut self)
        ensures
            final(self)@ == old(self)@.finish_close(),
    {
        self.0.events.put(Event::Closed);
        self.0.events.close();
    }
}

impl<M: Message, N: NodeId> Node<M, N, ()> {
    /// Create a new node without initialization message
    pub fn without_init(node_id: N) -> (n: Node<M, N, ()>)
        ensures
            n@ == (NodeModel::<M, N, ()> {
                node_id,
                events: QueueModel { items: Seq::empty(), open: true },
                sockets: Seq::empty(),
                connections: Map::empty(),
                closed: false,
                connection_timeout: duration_from_secs(60),
                stats_halflife_time: duration_from_secs(60),
                init_message: (),
            }),
    {
        Node::new(node_id, ())
    }
}


/// A message that a node sends to itself is received after every event
/// already queued, and before anything queued later.
pub proof fn law_self_message_order<M: Message, N: NodeId, I: InitMessage>(
    m: NodeModel<M, N, I>,
    msg: M,
)
    requires
        m.events.open,
    ensures
        ({
            let after = m.emit(Event::Message(m.node_id, msg));
            let n = m.events.items.len();
            &&& after.events.takes(n + 1) == m.events.items.push(
                Event::Message(m.node_id, msg),
            ).map_values(|e: Event<M, N, I>| Some(e))
            &&& forall|i: nat| i <= n ==> !#[trigger] after.events.takes_state(i).must_wait()
        }),
{
    let xs = seq![Event::<M, N, I>::Message(m.node_id, msg)];
    crate::queue::law_fifo(m.events, xs);
    assert(xs.drop_first() =~= Seq::<Event<M, N, I>>::empty());
    assert(m.events.put(xs[0]).put_all(xs.drop_first()) == m.events.put(xs[0]));
    assert(m.events.items + xs =~= m.events.items.push(Event::Message(m.node_id, msg)));
}

/// The registry: after a connection to `id` is added, the node is connected
/// to `id` through that connection and nothing else changes in the registry;
/// after that connection is lost, the node is no longer connected to `id`,
/// and the registry is as it was, without `id`; the loss of an older,
/// duplicate connection to `id` leaves the newer one registered.
pub proof fn law_registry<M: Message, N: NodeId, I: InitMessage>(
    m: NodeModel<M, N, I>,
    id: N,
    other: N,
    socket: u64,
    older: u64,
)
    ensures
        m.add_connection(id, socket).connections.contains_key(id),
        m.add_connection(id, socket).connections[id] == socket,
        !m.add_connection(id, socket).del_connection(id, socket).connections.contains_key(id),
        other != id ==> (m.add_connection(id, socket).connections.contains_key(other)
            == m.connections.contains_key(other) && m.del_connection(id, socket).connections.contains_key(
            other,
        ) == m.connections.contains_key(other)),
        m.add_connection(id, socket).del_connection(id, socket).connections == m.connections.remove(id),
        older != socket ==> m.add_connection(id, socket).del_connection(id, older) == m.add_connection(id, socket),
        m.add_connection(id, socket).node_id == m.node_id,
        m.add_connection(id, socket).closed == m.closed,
        m.del_connection(id, socket).closed == m.closed,
{
    assert(m.connections.insert(id, socket).remove(id) =~= m.connections.remove(id));
}

/// Closing always ends: once closing has started, whatever happened to the
/// listening sockets in between (all, some or none of them taken and shut
/// down, a shutdown failing), finishing the close leaves the node closed, its
/// event queue closed, and its readers never waiting again: they get the
/// remaining events in order and then `Closed` for ever. Closed from an open
/// state, the node has announced `Closing` and then, as its last event,
/// `Closed`, after every event already queued.
pub proof fn law_close<M: Message, N: NodeId, I: InitMessage>(
    m: NodeModel<M, N, I>,
    sockets_left: Seq<u64>,
    k: nat,
)
    ensures
        ({
            let c = (NodeModel { sockets: sockets_left, ..m.start_close() }).finish_close();
            let n = c.events.items.len();
            &&& c.closed
            &&& !c.events.open
            &&& forall|i: nat| #[trigger] c.events.takes_state(i).must_wait() == false
            &&& c.events.takes_state(n + k).front() is None
            &&& event_or_closed(c.events.takes_state(n + k).front()) == Event::<M, N, I>::Closed
            &&& m.events.open ==> {
                &&& c.events.items == m.events.items.push(Event::Closing).push(Event::Closed)
                &&& c.events.items.last() == Event::<M, N, I>::Closed
                &&& c.events.takes(n) == m.events.items.push(Event::Closing).push(
                    Event::Closed,
                ).map_values(|e: Event<M, N, I>| Some(e))
            }
        }),
{
    let c = (NodeModel { sockets: sockets_left, ..m.start_close() }).finish_close();
    crate::queue::law_close_keeps_items(c.events);
    assert(c.events.close() == c.events);
    lemma_closed_never_waits(c.events);
    lemma_closed_drains(c.events, k);
}


/// Queueing an event (a message received, a connection request) appends
/// exactly that event to an open event queue, drops it once the queue is
/// closed, and changes nothing else: the registry of connections, the
/// listeners, the closed flag, the id, the initialization message and the
/// timeouts all stay as they were, whatever they are.
pub proof fn law_emit_only_queues<M: Message, N: NodeId, I: InitMessage>(
    m: NodeModel<M, N, I>,
    e: Event<M, N, I>,
)
    ensures
        m.events.open ==> m.emit(e).events.items == m.events.items.push(e),
        !m.events.open ==> m.emit(e).events.items == m.events.items,
        m.emit(e).events.open == m.events.open,
        m.emit(e).connections == m.connections,
        m.emit(e).sockets == m.sockets,
        m.emit(e).closed == m.closed,
        m.emit(e).node_id == m.node_id,
        m.emit(e).init_message == m.init_message,
        m.emit(e).connection_timeout == m.connection_timeout,
        m.emit(e).stats_halflife_time == m.stats_halflife_time,
{
}

/// Every new connection is announced: registering the connection kept under
/// `socket` to `id` appends exactly `Connected(id)` to an open event queue,
/// however many other connections are registered, and maps `id` to `socket`
/// while leaving every other entry of the registry as it was. Losing the
/// registered connection to `id` appends exactly `Disconnected(id)`, however
/// many other connections remain, and removes only `id` from the registry.
/// Neither touches the listeners or the closed flag.
pub proof fn law_connections_announced<M: Message, N: NodeId, I: InitMessage>(
    m: NodeModel<M, N, I>,
    id: N,
    socket: u64,
)
    ensures
        m.events.open ==> m.add_connection(id, socket).events.items == m.events.items.push(
            Event::Connected(id),
        ),
        m.add_connection(id, socket).events.open == m.events.open,
        m.add_connection(id, socket).connections == m.connections.insert(id, socket),
        m.add_connection(id, socket).sockets == m.sockets,
        m.add_connection(id, socket).closed == m.closed,
        m.connections.contains_key(id) && m.connections[id] == socket ==> {
            &&& m.events.open ==> m.del_connection(id, socket).events.items == m.events.items.push(
                Event::Disconnected(id),
            )
            &&& m.del_connection(id, socket).events.open == m.events.open
            &&& m.del_connection(id, socket).connections == m.connections.remove(id)
        },
        m.del_connection(id, socket).sockets == m.sockets,
        m.del_connection(id, socket).closed == m.closed,
{
}

/// Closing in two steps: starting a close on an open node appends exactly
/// `Closing`, keeps the event queue open and the registry and listeners as
/// they are (the connections are still usable), and marks the node closed;
/// only finishing the close appends `Closed`, as the last event, and closes
/// the queue. So a message received while the node is closing is queued
/// after `Closing` and before `Closed`.
pub proof fn law_close_steps<M: Message, N: NodeId, I: InitMessage>(
    m: NodeModel<M, N, I>,
    src: N,
    msg: M,
)
    ensures
        m.events.open ==> m.start_close().events.items == m.events.items.push(Event::Closing),
        m.start_close().events.open == m.events.open,
        m.start_close().closed,
        m.start_close().connections == m.connections,
        m.start_close().sockets == m.sockets,
        m.events.open ==> m.finish_close().events.items == m.events.items.push(Event::Closed),
        !m.finish_close().events.open,
        m.finish_close().connections == m.connections,
        m.finish_close().closed == m.closed,
        m.events.open ==> m.start_close().emit(Event::Message(src, msg)).finish_close().events.items
            == m.events.items.push(Event::Closing).push(Event::Message(src, msg)).push(
            Event::Closed,
        ),
{
}

/// A closed queue keeps every later reader from waiting.
proof fn lemma_closed_never_waits<T>(q: QueueModel<T>)
    requires
        !q.open,
    ensures
        forall|i: nat| #[trigger] q.takes_state(i).must_wait() == false,
{
    assert forall|i: nat| #[trigger] q.takes_state(i).must_wait() == false by {
        lemma_closed_stays_closed(q, i);
    }
}

/// Readers of a closed queue leave it closed.
proof fn lemma_closed_stays_closed<T>(q: QueueModel<T>, i: nat)
    requires
        !q.open,
    ensures
        !q.takes_state(i).open,
        q.takes_state(i).items.len() == (if i <= q.items.len() {
            q.items.len() - i
        } else {
            0
        }),
    decreases i,
{
    if i > 0 {
        lemma_closed_stays_closed(q.after_take(), (i - 1) as nat);
    }
}

/// Once as many readers as there are items have taken from a closed queue,
/// it is drained and every later reader finds nothing.
proof fn lemma_closed_drains<T>(q: QueueModel<T>, k: nat)
    requires
        !q.open,
    ensures
        q.takes_state(q.items.len() + k).front() is None,
{
    lemma_closed_stays_closed(q, q.items.len() + k);
}

/// A node never reopens: every change of its state keeps it closed once closed.
pub proof fn law_closed_is_final<M: Message, N: NodeId, I: InitMessage>(
    m: NodeModel<M, N, I>,
    e: Event<M, N, I>,
    id: N,
    socket: u64,
)
    requires
        m.closed,
    ensures
        m.emit(e).closed,
        m.add_connection(id, socket).closed,
        m.del_connection(id, socket).closed,
        m.start_close().closed,
        m.finish_close().closed,
{
}

impl<M: Message, N: NodeId, I: InitMessage> PartialEq for ConnectionRequest<M, N, I> {
    /// Two requests are equal when they come from the same node over the same socket.
    fn eq(&self, other: &Self) -> (r: bool) {
        self.node_id == other.node_id && self.socket == other.socket
    }
}

impl<M: Message, N: NodeId, I: InitMessage> vstd::std_specs::cmp::PartialEqSpecImpl for ConnectionRequest<M, N, I> {
    open spec fn obeys_eq_spec() -> bool {
        <N as PartialEqSpec>::obeys_eq_spec()
    }

    open spec fn eq_spec(&self, other: &Self) -> bool {
        self.spec_node_id().eq_spec(&other.spec_node_id()) && self.spec_socket()
            == other.spec_socket()
    }
}

} // verus!
