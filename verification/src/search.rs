use vstd::prelude::*;

use crate::error::Error;
use crate::http::{find_pair, lookup, pairs_view, HttpRequest, Method, RequestBody, RequestView};
use crate::nomad::{
    node_url, token_headers, BlockingResponse, Client, ClientView, Node, NodeStatus, NodesInList,
    AWS_INSTANCE_ID_ATTRIBUTE,
};

verus! {

/// The IDs of the ready nodes of a node list, in list order.
pub open spec fn ready_ids(nodes: Seq<NodesInList>) -> Seq<Seq<char>>
    decreases nodes.len(),
{
    if nodes.len() == 0 {
        seq![]
    } else {
        let rest = ready_ids(nodes.drop_last());
        if nodes.last().status == NodeStatus::Ready {
            rest.push(nodes.last().id@)
        } else {
            rest
        }
    }
}

/// The candidates of a search are exactly the IDs of the listed nodes whose status is
/// ready, in list order, whatever their other fields (eligibility, drain, class, ...).
pub proof fn lemma_ready_ids_are_ready_nodes(nodes: Seq<NodesInList>)
    ensures
        ready_ids(nodes) == nodes.filter(|n: NodesInList| n.status == NodeStatus::Ready).map_values(
            |n: NodesInList| n.id@,
        ),
    decreases nodes.len(),
{
    if nodes.len() == 0 {
        reveal(Seq::filter);
        assert(nodes.filter(|n: NodesInList| n.status == NodeStatus::Ready).map_values(|n: NodesInList| n.id@)
            =~= Seq::<Seq<char>>::empty());
    } else {
        let before = nodes.drop_last();
        lemma_ready_ids_are_ready_nodes(before);
        assert(before.push(nodes.last()) =~= nodes);
        before.lemma_filter_push(nodes.last(), |n: NodesInList| n.status == NodeStatus::Ready);
        let rest = before.filter(|n: NodesInList| n.status == NodeStatus::Ready);
        assert(rest.push(nodes.last()).map_values(|n: NodesInList| n.id@)
            =~= rest.map_values(|n: NodesInList| n.id@).push(nodes.last().id@));
    }
}

/// Whether a node's details name the AWS instance `instance_id`.
pub open spec fn node_has_instance_id(node: Node, instance_id: Seq<char>) -> bool {
    lookup(pairs_view(node.attributes@), AWS_INSTANCE_ID_ATTRIBUTE@) == Some(instance_id)
}

/// Whether a reply to a node-details request shows the instance `instance_id`.
pub open spec fn reply_matches(reply: Result<BlockingResponse<Node>, Error>, instance_id: Seq<char>) -> bool {
    match reply {
        Ok(d) => node_has_instance_id(d.data, instance_id),
        Err(_) => false,
    }
}

/// The request for a node's details, without blocking-query parameters.
pub open spec fn details_request(c: ClientView, node_id: Seq<char>) -> RequestView {
    RequestView {
        method: Method::Get,
        url: node_url(c.address, node_id),
        query: seq![],
        headers: token_headers(c.token),
        body: RequestBody::Empty,
    }
}

/// The request for the list of nodes, without blocking-query parameters.
pub open spec fn list_request(c: ClientView) -> RequestView {
    RequestView {
        method: Method::Get,
        url: crate::nomad::nodes_url(c.address),
        query: seq![],
        headers: token_headers(c.token),
        body: RequestBody::Empty,
    }
}

/// Where a search for the node of an AWS instance stands
#[derive(Clone, Copy, Debug, PartialEq, Eq, Structural)]
pub enum SearchPhase {
    /// Waiting for the list of nodes
    ListingNodes,
    /// Waiting for the details of the candidate at `next`
    CheckingNodes,
    /// The search has ended
    Finished,
}

/// A reply that the search is given
pub enum SearchEvent {
    /// The reply to the request for the list of nodes
    NodeList(Result<BlockingResponse<Vec<NodesInList>>, Error>),
    /// The reply to the request for the details of the current candidate
    NodeDetails(Result<BlockingResponse<Node>, Error>),
}

/// What the search asks for next
pub enum SearchAction {
    /// Send this request and hand its reply back
    Request(HttpRequest),
    /// The node of the instance has been found
    Found(BlockingResponse<Node>),
    /// Listing the nodes failed with this error
    ListFailed(Error),
    /// No ready node belongs to the instance: the error is `Error::NomadNodeNotFound`
    NotFound(Error),
}

/// A search step as plain values
pub enum SearchStep {
    Request(RequestView),
    Found(BlockingResponse<Node>),
    /// Listing the nodes failed with this error
    ListFailed(Error),
    /// No ready node belongs to the instance with this ID
    NotFound(Seq<char>),
}

impl SearchAction {
    pub open spec fn step(self) -> SearchStep {
        match self {
            SearchAction::Request(r) => SearchStep::Request(r@),
            SearchAction::Found(d) => SearchStep::Found(d),
            SearchAction::ListFailed(e) => SearchStep::ListFailed(e),
            SearchAction::NotFound(e) => SearchStep::NotFound(e->instance_id@),
        }
    }
}

/// The state of a search as plain values
pub struct SearchState {
    pub instance_id: Seq<char>,
    pub candidates: Seq<Seq<char>>,
    pub next: int,
    pub phase: SearchPhase,
}

/// The search for the Nomad node that runs an AWS instance: it lists the nodes, then
/// asks for the details of each ready node in turn, and stops at the first whose
/// details name the instance. A node whose details cannot be had is passed over.
pub struct NodeSearch {
    instance_id: String,
    candidates: Vec<String>,
    next: usize,
    phase: SearchPhase,
}

impl View for NodeSearch {
    type V = SearchState;

    closed spec fn view(&self) -> SearchState {
        SearchState {
            instance_id: self.instance_id@,
            candidates: self.candidates@.map_values(|s: String| s@),
            next: self.next as int,
            phase: self.phase,
        }
    }
}

/// The state in which a search starts.
pub open spec fn search_start(instance_id: Seq<char>) -> SearchState {
    SearchState { instance_id, candidates: seq![], next: 0, phase: SearchPhase::ListingNodes }
}

/// Asks for the candidate at `s.next`, or reports that none is left.
pub open spec fn search_advance(c: ClientView, s: SearchState) -> (SearchState, SearchStep) {
    if 0 <= s.next < s.candidates.len() {
        (
            SearchState { phase: SearchPhase::CheckingNodes, ..s },
            SearchStep::Request(details_request(c, s.candidates[s.next])),
        )
    } else {
        (SearchState { phase: SearchPhase::Finished, ..s }, SearchStep::NotFound(s.instance_id))
    }
}

/// One step of the search, on a reply that it waits for (`search_expects`): the state
/// after the reply, and what is asked for next.
pub open spec fn search_step(c: ClientView, s: SearchState, e: SearchEvent) -> (SearchState, SearchStep)
    recommends
        search_expects(s, e),
{
    match e {
        SearchEvent::NodeList(reply) => match reply {
            Err(err) => (SearchState { phase: SearchPhase::Finished, ..s }, SearchStep::ListFailed(err)),
            Ok(list) => search_advance(c, SearchState { candidates: ready_ids(list.data@), next: 0, ..s }),
        },
        SearchEvent::NodeDetails(reply) => match reply {
            Ok(d) => if node_has_instance_id(d.data, s.instance_id) {
                (SearchState { phase: SearchPhase::Finished, ..s }, SearchStep::Found(d))
            } else {
                search_advance(c, SearchState { next: s.next + 1, ..s })
            },
            Err(_) => search_advance(c, SearchState { next: s.next + 1, ..s }),
        },
    }
}

/// The state after the replies `events` are handed in turn to a search in state `s`.
pub open spec fn search_run(c: ClientView, s: SearchState, events: Seq<SearchEvent>) -> SearchState
    decreases events.len(),
{
    if events.len() == 0 {
        s
    } else {
        search_step(c, search_run(c, s, events.drop_last()), events.last()).0
    }
}

/// What the search asks for after the last of the replies `events` (one at least).
pub open spec fn search_last_step(c: ClientView, s: SearchState, events: Seq<SearchEvent>) -> SearchStep
    recommends
        events.len() > 0,
{
    search_step(c, search_run(c, s, events.drop_last()), events.last()).1
}

/// The replies of a search: the list of nodes, then the details of the candidates in turn.
pub open spec fn search_events(
    list: BlockingResponse<Vec<NodesInList>>,
    replies: Seq<Result<BlockingResponse<Node>, Error>>,
) -> Seq<SearchEvent> {
    seq![SearchEvent::NodeList(Ok(list))] + replies.map_values(
        |r: Result<BlockingResponse<Node>, Error>| SearchEvent::NodeDetails(r),
    )
}

/// After the list of nodes and `k` replies none of which names the instance, the search
/// waits for the details of the ready node at position `k`, or has ended without a match.
proof fn lemma_search_state(
    c: ClientView,
    instance_id: Seq<char>,
    list: BlockingResponse<Vec<NodesInList>>,
    replies: Seq<Result<BlockingResponse<Node>, Error>>,
    k: int,
)
    requires
        0 <= k <= replies.len(),
        k <= ready_ids(list.data@).len(),
        forall|i: int| 0 <= i < k ==> !reply_matches(#[trigger] replies[i], instance_id),
    ensures
        ({
            let ids = ready_ids(list.data@);
            let events = search_events(list, replies).take(k + 1);
            &&& search_run(c, search_start(instance_id), events) == SearchState {
                instance_id,
                candidates: ids,
                next: k,
                phase: if k < ids.len() { SearchPhase::CheckingNodes } else { SearchPhase::Finished },
            }
            &&& search_last_step(c, search_start(instance_id), events) == if k < ids.len() {
                SearchStep::Request(details_request(c, ids[k]))
            } else {
                SearchStep::NotFound(instance_id)
            }
        }),
    decreases k,
{
    let events = search_events(list, replies);
    if k == 0 {
        assert(events.take(1).drop_last() =~= Seq::<SearchEvent>::empty());
        assert(events.take(1).last() == SearchEvent::NodeList(Ok(list)));
        assert(search_run(c, search_start(instance_id), Seq::<SearchEvent>::empty()) == search_start(instance_id));
    } else {
        lemma_search_state(c, instance_id, list, replies, k - 1);
        assert(events.take(k + 1).drop_last() =~= events.take(k));
        assert(events.take(k + 1).last() == SearchEvent::NodeDetails(replies[k - 1]));
        assert(!reply_matches(replies[k - 1], instance_id));
    }
}

/// The search asks for the details of the ready nodes in list order, one at a time; it
/// passes over a node whose details cannot be had or name another instance, reports the
/// first node whose details name the instance, and reports that no node was found once
/// every ready node has been passed over.
pub proof fn lemma_search_reports_first_match(
    c: ClientView,
    instance_id: Seq<char>,
    list: BlockingResponse<Vec<NodesInList>>,
    replies: Seq<Result<BlockingResponse<Node>, Error>>,
)
    requires
        replies.len() <= ready_ids(list.data@).len(),
        forall|i: int| 0 <= i < replies.len() - 1 ==> !reply_matches(#[trigger] replies[i], instance_id),
    ensures
        ({
            let ids = ready_ids(list.data@);
            let n = replies.len() as int;
            let step = search_last_step(c, search_start(instance_id), search_events(list, replies));
            if n > 0 && reply_matches(replies[n - 1], instance_id) {
                step == SearchStep::Found(replies[n - 1]->Ok_0)
            } else if n < ids.len() {
                step == SearchStep::Request(details_request(c, ids[n]))
            } else {
                step == SearchStep::NotFound(instance_id)
            }
        }),
{
    let events = search_events(list, replies);
    let n = replies.len() as int;
    assert(events.take(n + 1) =~= events);
    if n == 0 {
        lemma_search_state(c, instance_id, list, replies, 0);
    } else {
        lemma_search_state(c, instance_id, list, replies, n - 1);
        assert(events.drop_last() =~= events.take(n));
        assert(events.last() == SearchEvent::NodeDetails(replies[n - 1]));
    }
}

/// Whether the search is waiting for this kind of reply.
pub open spec fn search_expects(s: SearchState, e: SearchEvent) -> bool {
    match e {
        SearchEvent::NodeList(_) => s.phase == SearchPhase::ListingNodes,
        SearchEvent::NodeDetails(_) => s.phase == SearchPhase::CheckingNodes,
    }
}

impl NodeSearch {
    /// The search's own invariant: the current candidate exists while one is awaited.
    pub closed spec fn wf(&self) -> bool {
        &&& self.next <= self.candidates.len()
        &&& self.phase == SearchPhase::CheckingNodes ==> self.next < self.candidates.len()
    }

    /// Whether the search has ended.
    pub fn is_finished(&self) -> (r: bool)
        ensures
            r == (self@.phase == SearchPhase::Finished),
    {
        self.phase == SearchPhase::Finished
    }
}

/// The IDs of the ready nodes of `nodes`, in order.
fn collect_ready_ids(nodes: Vec<NodesInList>) -> (ids: Vec<String>)
    ensures
        ids@.map_values(|s: String| s@) == ready_ids(nodes@),
{
    let ghost all = nodes@;
    let mut ids: Vec<String> = Vec::new();
    assert(all.take(0) =~= Seq::<NodesInList>::empty());
    for node in it: nodes.into_iter()
        invariant
            all == it.seq(),
            ids@.map_values(|s: String| s@) == ready_ids(all.take(it.index() as int)),
    {
        let ghost k = it.index();
        assert(all.take(k + 1).drop_last() =~= all.take(k as int));
        if node.status == NodeStatus::Ready {
            let ghost before = ids@;
            ids.push(node.id);
            assert(ids@.map_values(|s: String| s@) =~= before.map_values(|s: String| s@).push(all[k as int].id@));
        }
    }
    assert(all.take(all.len() as int) =~= all);
    ids
}

impl Client {
    /// Begins the search for the node of an AWS instance: the search and the request for
    /// the list of nodes, whose reply is handed to `node_search_step`.
    pub fn start_node_search(&self, instance_id: &str) -> (res: (NodeSearch, HttpRequest))
        ensures
            res.0.wf(),
            res.0@ == search_start(instance_id@),
            res.1@ == list_request(self@),
    {
        let request = self.build_nodes_request(None, None);
        let search = NodeSearch {
            instance_id: instance_id.to_owned(),
            candidates: Vec::new(),
            next: 0,
            phase: SearchPhase::ListingNodes,
        };
        assert(search@.candidates =~= Seq::<Seq<char>>::empty());
        assert(request@.query =~= Seq::<(Seq<char>, Seq<char>)>::empty());
        (search, request)
    }

    /// Sets the search on the candidate at its current position, or ends it when none is left.
    fn search_advance(&self, search: &mut NodeSearch) -> (action: SearchAction)
        requires
            old(search).next <= old(search).candidates.len(),
        ensures
            final(search).wf(),
            (final(search)@, action.step()) == search_advance(self@, old(search)@),
            action matches SearchAction::NotFound(e) ==> e is NomadNodeNotFound,
    {
        if search.next < search.candidates.len() {
            search.phase = SearchPhase::CheckingNodes;
            let r = self.build_node_details_request(search.candidates[search.next].as_str(), None, None);
            assert(r@.query =~= Seq::<(Seq<char>, Seq<char>)>::empty());
            SearchAction::Request(r)
        } else {
            search.phase = SearchPhase::Finished;
            SearchAction::NotFound(Error::NomadNodeNotFound { instance_id: search.instance_id.clone() })
        }
    }

    /// Hands a reply to the search and says what it asks for next.
    pub fn node_search_step(&self, search: &mut NodeSearch, event: SearchEvent) -> (action: SearchAction)
        requires
            old(search).wf(),
            search_expects(old(search)@, event),
        ensures
            final(search).wf(),
            (final(search)@, action.step()) == search_step(self@, old(search)@, event),
            action matches SearchAction::NotFound(e) ==> e is NomadNodeNotFound,
    {
        match event {
            SearchEvent::NodeList(reply) => match reply {
                Err(err) => {
                    search.phase = SearchPhase::Finished;
                    SearchAction::ListFailed(err)
                },
                Ok(list) => {
                    search.candidates = collect_ready_ids(list.data);
                    search.next = 0;
                    self.search_advance(search)
                },
            },
            SearchEvent::NodeDetails(reply) => match reply {
                Ok(d) => {
                    let found = match find_pair(&d.data.attributes, AWS_INSTANCE_ID_ATTRIBUTE) {
                        Some(id) => *id == search.instance_id,
                        None => false,
                    };
                    if found {
                        search.phase = SearchPhase::Finished;
                        SearchAction::Found(d)
                    } else {
                        search.next = search.next + 1;
                        self.search_advance(search)
                    }
                },
                Err(_) => {
                    search.next = search.next + 1;
                    self.search_advance(search)
                },
            },
        }
    }
}

} // verus!
