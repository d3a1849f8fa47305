use vstd::prelude::*;

use crate::error::Error;
use crate::http::{HttpRequest, Method, RequestBody, RequestView};
use crate::text::decimal;
use crate::nomad::{
    blocking_query, node_url, token_headers, BlockingResponse, Client, ClientView, DrainSpec, Node,
    NodeDrainRequest,
};

verus! {

/// Wait time of each blocking query while a drain is monitored, when none is given: five minutes
pub const DEFAULT_MONITOR_WAIT_SECS: u64 = 300;

/// Where a drain stands
#[derive(Clone, Copy, Debug, PartialEq, Eq, Structural)]
pub enum DrainPhase {
    /// Waiting for the reply to the drain request
    Draining,
    /// Waiting for the node's details, to see whether the drain is complete
    Monitoring,
    /// The drain, or its monitoring, has ended
    Finished,
}

/// A reply that the drain is given
pub enum DrainEvent {
    /// The reply to the drain request: `Ok` when the response could be read
    DrainReply(Result<(), Error>),
    /// The reply to a blocking query for the node's details
    NodeDetails(Result<BlockingResponse<Node>, Error>),
}

/// What the drain asks for next
pub enum DrainAction {
    /// Send this request and hand its reply back
    Request(HttpRequest),
    /// The drain is complete (or was not to be monitored)
    Done,
    /// The drain failed with this error
    Failed(Error),
}

/// A drain step as plain values
pub enum DrainStep {
    Request(RequestView),
    Done,
    Failed(Error),
}

impl DrainAction {
    pub open spec fn step(self) -> DrainStep {
        match self {
            DrainAction::Request(r) => DrainStep::Request(r@),
            DrainAction::Done => DrainStep::Done,
            DrainAction::Failed(e) => DrainStep::Failed(e),
        }
    }
}

/// The state of a drain as plain values
pub struct DrainState {
    pub node_id: Seq<char>,
    pub monitor: bool,
    pub wait_timeout: u64,
    pub wait_index: Option<u64>,
    pub phase: DrainPhase,
}

/// The drain of a Nomad node: the drain request, then, when the drain is monitored,
/// blocking queries for the node's details until the node no longer has a drain
/// strategy. Each query waits for a change past the index of the previous reply.
pub struct NodeDrain {
    node_id: String,
    monitor: bool,
    wait_timeout: u64,
    wait_index: Option<u64>,
    phase: DrainPhase,
}

impl View for NodeDrain {
    type V = DrainState;

    closed spec fn view(&self) -> DrainState {
        DrainState {
            node_id: self.node_id@,
            monitor: self.monitor,
            wait_timeout: self.wait_timeout,
            wait_index: self.wait_index,
            phase: self.phase,
        }
    }
}

/// The blocking query for the node's details in state `s`.
pub open spec fn monitor_request(c: ClientView, s: DrainState) -> RequestView {
    RequestView {
        method: Method::Get,
        url: node_url(c.address, s.node_id),
        query: blocking_query(s.wait_index, Some(s.wait_timeout)),
        headers: token_headers(c.token),
        body: RequestBody::Empty,
    }
}

/// One step of the drain, on a reply that it waits for (`drain_expects`): the state after
/// the reply, and what is asked for next.
pub open spec fn drain_step(c: ClientView, s: DrainState, e: DrainEvent) -> (DrainState, DrainStep)
    recommends
        drain_expects(s, e),
{
    match e {
        DrainEvent::DrainReply(reply) => match reply {
            Err(err) => (DrainState { phase: DrainPhase::Finished, ..s }, DrainStep::Failed(err)),
            Ok(_) => if s.monitor {
                let s1 = DrainState { phase: DrainPhase::Monitoring, wait_index: None, ..s };
                (s1, DrainStep::Request(monitor_request(c, s1)))
            } else {
                (DrainState { phase: DrainPhase::Finished, ..s }, DrainStep::Done)
            },
        },
        DrainEvent::NodeDetails(reply) => match reply {
            Err(err) => (DrainState { phase: DrainPhase::Finished, ..s }, DrainStep::Failed(err)),
            Ok(d) => if d.data.drain_strategy is None {
                (DrainState { phase: DrainPhase::Finished, ..s }, DrainStep::Done)
            } else {
                let s1 = DrainState { wait_index: Some(d.index), ..s };
                (s1, DrainStep::Request(monitor_request(c, s1)))
            },
        },
    }
}

/// Whether the drain is waiting for this kind of reply.
pub open spec fn drain_expects(s: DrainState, e: DrainEvent) -> bool {
    match e {
        DrainEvent::DrainReply(_) => s.phase == DrainPhase::Draining,
        DrainEvent::NodeDetails(_) => s.phase == DrainPhase::Monitoring,
    }
}

/// The state after the replies `events` are handed in turn to a drain in state `s`.
pub open spec fn drain_run(c: ClientView, s: DrainState, events: Seq<DrainEvent>) -> DrainState
    decreases events.len(),
{
    if events.len() == 0 {
        s
    } else {
        drain_step(c, drain_run(c, s, events.drop_last()), events.last()).0
    }
}

/// What the drain asks for after the last of the replies `events` (one at least).
pub open spec fn drain_last_step(c: ClientView, s: DrainState, events: Seq<DrainEvent>) -> DrainStep
    recommends
        events.len() > 0,
{
    drain_step(c, drain_run(c, s, events.drop_last()), events.last()).1
}

/// The drain specification that is sent: the one given, else the default.
pub open spec fn effective_drain_spec(drain_spec: Option<DrainSpec>) -> DrainSpec {
    match drain_spec {
        Some(d) => d,
        None => DrainSpec { deadline: 3600, ignore_system_jobs: false },
    }
}

/// The replies of a monitored drain: the node's details, one reply per blocking query.
pub open spec fn monitor_events(replies: Seq<BlockingResponse<Node>>) -> Seq<DrainEvent> {
    replies.map_values(|r: BlockingResponse<Node>| DrainEvent::NodeDetails(Ok(r)))
}

/// After `k` replies that all show a drain strategy, the monitor waits past the index
/// of the last of them (or without an index when there was none yet).
proof fn lemma_monitor_state(c: ClientView, s0: DrainState, replies: Seq<BlockingResponse<Node>>, k: int)
    requires
        s0.phase == DrainPhase::Monitoring,
        0 <= k <= replies.len(),
        forall|i: int| 0 <= i < k ==> (#[trigger] replies[i]).data.drain_strategy is Some,
    ensures
        drain_run(c, s0, monitor_events(replies).take(k)) == (DrainState {
            wait_index: if k == 0 { s0.wait_index } else { Some(replies[k - 1].index) },
            ..s0
        }),
    decreases k,
{
    let events = monitor_events(replies);
    if k == 0 {
        assert(events.take(0) =~= Seq::<DrainEvent>::empty());
    } else {
        lemma_monitor_state(c, s0, replies, k - 1);
        assert(events.take(k).drop_last() =~= events.take(k - 1));
        assert(events.take(k).last() == DrainEvent::NodeDetails(Ok(replies[k - 1])));
    }
}

/// While a drain is monitored, each blocking query waits for a change past the index of
/// the reply before it, with the same wait time, and the monitoring ends at the first
/// reply that shows the node without a drain strategy.
pub proof fn lemma_monitor_follows_index(c: ClientView, s0: DrainState, replies: Seq<BlockingResponse<Node>>)
    requires
        s0.phase == DrainPhase::Monitoring,
        replies.len() > 0,
        forall|i: int| 0 <= i < replies.len() - 1 ==> (#[trigger] replies[i]).data.drain_strategy is Some,
    ensures
        ({
            let n = replies.len() as int;
            let step = drain_last_step(c, s0, monitor_events(replies));
            if replies[n - 1].data.drain_strategy is None {
                step == DrainStep::Done
            } else {
                step == DrainStep::Request(monitor_request(c, DrainState { wait_index: Some(replies[n - 1].index), ..s0 }))
                    && monitor_request(c, DrainState { wait_index: Some(replies[n - 1].index), ..s0 }).query
                        == blocking_query(Some(replies[n - 1].index), Some(s0.wait_timeout))
            }
        }),
{
    let events = monitor_events(replies);
    let n = replies.len() as int;
    lemma_monitor_state(c, s0, replies, n - 1);
    assert(events.drop_last() =~= events.take(n - 1));
    assert(events.last() == DrainEvent::NodeDetails(Ok(replies[n - 1])));
}

/// Once the drain request succeeds, an unmonitored drain is done, and a monitored one
/// starts with a blocking query that waits for no index; a failed drain request ends the
/// drain with its error.
pub proof fn lemma_drain_reply(c: ClientView, s: DrainState, reply: Result<(), Error>)
    requires
        s.phase == DrainPhase::Draining,
    ensures
        ({
            let step = drain_step(c, s, DrainEvent::DrainReply(reply)).1;
            match reply {
                Err(e) => step == DrainStep::Failed(e),
                Ok(_) => if s.monitor {
                    step == DrainStep::Request(monitor_request(c, DrainState { phase: DrainPhase::Monitoring, wait_index: None, ..s }))
                        && monitor_request(c, DrainState { phase: DrainPhase::Monitoring, wait_index: None, ..s }).query
                            == Seq::<(Seq<char>, Seq<char>)>::empty()
                } else {
                    step == DrainStep::Done
                },
            }
        }),
{
}

/// Every blocking query of a drain monitor, whatever its wait index, is a GET of the
/// drained node's details at `{address}/v1/node/{node}`, sent with the client's token
/// in `X-Nomad-Token` when the client has one and with no header otherwise, without a
/// body; it asks for the index it waits past (when there is one) and the wait time in
/// seconds.
pub proof fn lemma_monitor_query(c: ClientView, s: DrainState)
    ensures
        ({
            let r = monitor_request(c, s);
            &&& r.method == Method::Get
            &&& r.url == c.address + "/v1/node/"@ + s.node_id
            &&& r.headers == match c.token {
                Some(t) => seq![("X-Nomad-Token"@, t)],
                None => Seq::<(Seq<char>, Seq<char>)>::empty(),
            }
            &&& r.body == RequestBody::Empty
            &&& r.query == match s.wait_index {
                None => Seq::<(Seq<char>, Seq<char>)>::empty(),
                Some(i) => seq![("index"@, decimal(i as nat)), ("wait"@, decimal(s.wait_timeout as nat) + "s"@)],
            }
        }),
{
}

/// Whatever reply a drain is handed, the next request that it asks for (if any) is the
/// blocking query for the same node's details with the client's token, and a query after
/// a reply that still shows a drain strategy waits past that reply's index.
pub proof fn lemma_drain_step_queries(c: ClientView, s: DrainState, e: DrainEvent)
    requires
        drain_expects(s, e),
    ensures
        ({
            let (next, step) = drain_step(c, s, e);
            &&& next.node_id == s.node_id
            &&& next.wait_timeout == s.wait_timeout
            &&& (step matches DrainStep::Request(r) ==> {
                &&& r.method == Method::Get
                &&& r.url == c.address + "/v1/node/"@ + s.node_id
                &&& r.headers == match c.token {
                    Some(t) => seq![("X-Nomad-Token"@, t)],
                    None => Seq::<(Seq<char>, Seq<char>)>::empty(),
                }
                &&& r.body == RequestBody::Empty
            })
            &&& (e matches DrainEvent::NodeDetails(Ok(d)) ==> (d.data.drain_strategy is Some ==> {
                &&& next.wait_index == Some(d.index)
                &&& step matches DrainStep::Request(r) && r.query[0] == ("index"@, decimal(d.index as nat))
            }))
        }),
{
    lemma_monitor_query(c, drain_step(c, s, e).0);
}

impl NodeDrain {
    /// Whether the drain has ended.
    pub fn is_finished(&self) -> (r: bool)
        ensures
            r == (self@.phase == DrainPhase::Finished),
    {
        self.phase == DrainPhase::Finished
    }
}

impl Client {
    /// Begins to drain a node: the drain and the drain request, whose reply is handed
    /// to `node_drain_step`. The drain specification defaults to `DrainSpec::default()`.
    pub fn start_node_drain(&self, node_id: &str, monitor: bool, drain_spec: Option<DrainSpec>) -> (res: (NodeDrain, HttpRequest))
        ensures
            res.0@ == (DrainState {
                node_id: node_id@,
                monitor,
                wait_timeout: DEFAULT_MONITOR_WAIT_SECS,
                wait_index: None,
                phase: DrainPhase::Draining,
            }),
            res.1@.method == Method::Post,
            res.1@.url == crate::nomad::drain_url(self@.address, node_id@),
            res.1@.query == Seq::<(Seq<char>, Seq<char>)>::empty(),
            res.1@.headers == token_headers(self@.token),
            match res.1.body {
                RequestBody::NodeDrain(p) => p.node_id@ == node_id@ && p.drain_spec == effective_drain_spec(drain_spec),
                _ => false,
            },
    {
        let drain_spec = match drain_spec {
            Some(d) => d,
            None => DrainSpec::default(),
        };
        let payload = NodeDrainRequest { node_id: node_id.to_owned(), drain_spec };
        let request = self.build_drain_request(node_id, payload);
        let drain = NodeDrain {
            node_id: node_id.to_owned(),
            monitor,
            wait_timeout: DEFAULT_MONITOR_WAIT_SECS,
            wait_index: None,
            phase: DrainPhase::Draining,
        };
        (drain, request)
    }

    /// Begins to monitor the drain of a node: the monitor and its first blocking query,
    /// whose reply is handed to `node_drain_step`. Each query waits at most
    /// `wait_timeout` seconds, five minutes when none is given.
    pub fn start_drain_monitor(&self, node_id: &str, wait_timeout: Option<u64>) -> (res: (NodeDrain, HttpRequest))
        ensures
            res.0@ == (DrainState {
                node_id: node_id@,
                monitor: true,
                wait_timeout: match wait_timeout { Some(t) => t, None => DEFAULT_MONITOR_WAIT_SECS },
                wait_index: None,
                phase: DrainPhase::Monitoring,
            }),
            res.1@ == monitor_request(self@, res.0@),
    {
        let wait_timeout = match wait_timeout {
            Some(t) => t,
            None => DEFAULT_MONITOR_WAIT_SECS,
        };
        let drain = NodeDrain {
            node_id: node_id.to_owned(),
            monitor: true,
            wait_timeout,
            wait_index: None,
            phase: DrainPhase::Monitoring,
        };
        let request = self.build_node_details_request(node_id, None, Some(wait_timeout));
        (drain, request)
    }

    /// Hands a reply to the drain and says what it asks for next.
    pub fn node_drain_step(&self, drain: &mut NodeDrain, event: DrainEvent) -> (action: DrainAction)
        requires
            drain_expects(old(drain)@, event),
        ensures
            (final(drain)@, action.step()) == drain_step(self@, old(drain)@, event),
    {
        match event {
            DrainEvent::DrainReply(reply) => match reply {
                Err(err) => {
                    drain.phase = DrainPhase::Finished;
                    DrainAction::Failed(err)
                },
                Ok(_) => if drain.monitor {
                    drain.phase = DrainPhase::Monitoring;
                    drain.wait_index = None;
                    DrainAction::Request(self.build_node_details_request(drain.node_id.as_str(), None, Some(drain.wait_timeout)))
                } else {
                    drain.phase = DrainPhase::Finished;
                    DrainAction::Done
                },
            },
            DrainEvent::NodeDetails(reply) => match reply {
                Err(err) => {
                    drain.phase = DrainPhase::Finished;
                    DrainAction::Failed(err)
                },
                Ok(d) => if d.data.drain_strategy.is_none() {
                    drain.phase = DrainPhase::Finished;
                    DrainAction::Done
                } else {
                    drain.wait_index = Some(d.index);
                    DrainAction::Request(self.build_node_details_request(drain.node_id.as_str(), drain.wait_index, Some(drain.wait_timeout)))
                },
            },
        }
    }
}

} // verus!
