use nomad_drain::drain::{DrainAction, DrainEvent};
use nomad_drain::http::RequestBody;
use nomad_drain::nomad::{
    BlockingResponse, Client, DrainSpec, DrainStrategy, Node, NodeEligibility, NodeStatus, NodesInList,
    UtcTime,
};
use nomad_drain::search::{SearchAction, SearchEvent};
use nomad_drain::Error;

const NOMAD_ADDRESS: &str = "http://127.0.0.1:4646";

fn client() -> Client {
    Client::new(NOMAD_ADDRESS, Some("token"), None).unwrap()
}

fn listed(id: &str, status: NodeStatus) -> NodesInList {
    NodesInList {
        address: "10.0.0.1".to_string(),
        datacenter: "dc1".to_string(),
        drain: false,
        id: id.to_string(),
        name: id.to_string(),
        status,
        node_class: String::new(),
        scheduling_eligibility: NodeEligibility::Eligible,
        version: "0.9.0".to_string(),
        modify_index: 1,
        status_description: String::new(),
    }
}

fn node(id: &str, instance_id: Option<&str>, draining: bool) -> Node {
    let mut attributes = vec![("os.name".to_string(), "ubuntu".to_string())];
    if let Some(instance) = instance_id {
        attributes.push(("unique.platform.aws.instance-id".to_string(), instance.to_string()));
    }
    Node {
        id: id.to_string(),
        name: id.to_string(),
        attributes,
        computed_class: String::new(),
        create_index: 1,
        datacenter: "dc1".to_string(),
        drain: draining,
        drain_strategy: if draining {
            Some(DrainStrategy {
                drain_spec: Some(DrainSpec { deadline: 600, ignore_system_jobs: false }),
                force_deadline: UtcTime { seconds: 1_600_000_000, nanos: 0 },
            })
        } else {
            None
        },
        http_address: "10.0.0.1:4646".to_string(),
        modify_index: 2,
        scheduling_eligibility: NodeEligibility::Ineligible,
        secret_id: String::new(),
        status: NodeStatus::Ready,
        status_description: String::new(),
        status_updated_at: 0,
        tls_enabled: false,
        node_class: None,
    }
}

fn details(n: Node, index: u64) -> Result<BlockingResponse<Node>, Error> {
    Ok(BlockingResponse { index, data: n })
}

fn requested_url(action: &SearchAction) -> String {
    match action {
        SearchAction::Request(r) => {
            assert_eq!(r.body, RequestBody::Empty);
            r.url.clone()
        }
        _ => panic!("expected a request"),
    }
}

#[test]
fn search_checks_ready_nodes_in_order_and_finds_the_first_match() {
    let c = client();
    let (mut search, request) = c.start_node_search("i-123");
    assert_eq!(request.url, "http://127.0.0.1:4646/v1/nodes");
    assert_eq!(request.body, RequestBody::Empty);
    let list = vec![
        listed("a", NodeStatus::Ready),
        listed("b", NodeStatus::Down),
        listed("c", NodeStatus::Ready),
        listed("d", NodeStatus::Ready),
    ];
    let action = c.node_search_step(&mut search, SearchEvent::NodeList(Ok(BlockingResponse { index: 5, data: list })));
    assert_eq!(requested_url(&action), "http://127.0.0.1:4646/v1/node/a");
    // a's details cannot be had: it is passed over
    let action = c.node_search_step(&mut search, SearchEvent::NodeDetails(Err(Error::InvalidVaultResponse("x".to_string()))));
    assert_eq!(requested_url(&action), "http://127.0.0.1:4646/v1/node/c");
    // c belongs to another instance
    let action = c.node_search_step(&mut search, SearchEvent::NodeDetails(details(node("c", Some("i-999"), false), 1)));
    assert_eq!(requested_url(&action), "http://127.0.0.1:4646/v1/node/d");
    let action = c.node_search_step(&mut search, SearchEvent::NodeDetails(details(node("d", Some("i-123"), false), 9)));
    match action {
        SearchAction::Found(r) => {
            assert_eq!(r.data.id, "d");
            assert_eq!(r.index, 9);
        }
        _ => panic!("expected the node to be found"),
    }
    assert!(search.is_finished());
}

#[test]
fn search_reports_not_found_when_no_ready_node_matches() {
    let c = client();
    let (mut search, _) = c.start_node_search("i-123");
    let list = vec![listed("a", NodeStatus::Ready), listed("b", NodeStatus::Initializing)];
    let action = c.node_search_step(&mut search, SearchEvent::NodeList(Ok(BlockingResponse { index: 1, data: list })));
    assert_eq!(requested_url(&action), "http://127.0.0.1:4646/v1/node/a");
    let action = c.node_search_step(&mut search, SearchEvent::NodeDetails(details(node("a", None, false), 1)));
    match action {
        SearchAction::NotFound(Error::NomadNodeNotFound { instance_id }) => assert_eq!(instance_id, "i-123"),
        _ => panic!("expected not found"),
    }
    assert!(search.is_finished());

    let (mut search, _) = c.start_node_search("i-1");
    let action = c.node_search_step(&mut search, SearchEvent::NodeList(Ok(BlockingResponse { index: 1, data: vec![] })));
    assert!(matches!(action, SearchAction::NotFound(Error::NomadNodeNotFound { .. })));
}

#[test]
fn search_stops_when_the_list_cannot_be_had() {
    let c = client();
    let (mut search, _) = c.start_node_search("i-1");
    let action = c.node_search_step(&mut search, SearchEvent::NodeList(Err(Error::InvalidVaultResponse("down".to_string()))));
    assert!(matches!(action, SearchAction::ListFailed(Error::InvalidVaultResponse(m)) if m == "down"));
    assert!(search.is_finished());
}

#[test]
fn unmonitored_drain_is_done_after_the_drain_request() {
    let c = client();
    let (mut drain, _) = c.start_node_drain("n1", false, None);
    let action = c.node_drain_step(&mut drain, DrainEvent::DrainReply(Ok(())));
    assert!(matches!(action, DrainAction::Done));
    assert!(drain.is_finished());
}

#[test]
fn monitored_drain_follows_the_index_until_the_strategy_is_gone() {
    let c = client();
    let (mut drain, _) = c.start_node_drain("n1", true, None);
    let action = c.node_drain_step(&mut drain, DrainEvent::DrainReply(Ok(())));
    match action {
        DrainAction::Request(r) => {
            assert_eq!(r.url, "http://127.0.0.1:4646/v1/node/n1");
            assert!(r.query.is_empty());
            assert_eq!(r.body, RequestBody::Empty);
        }
        _ => panic!("expected a request"),
    }
    let action = c.node_drain_step(&mut drain, DrainEvent::NodeDetails(details(node("n1", None, true), 17)));
    match action {
        DrainAction::Request(r) => assert_eq!(
            r.query,
            vec![("index".to_string(), "17".to_string()), ("wait".to_string(), "300s".to_string())]
        ),
        _ => panic!("expected a request"),
    }
    let action = c.node_drain_step(&mut drain, DrainEvent::NodeDetails(details(node("n1", None, true), 18)));
    match action {
        DrainAction::Request(r) => assert_eq!(r.query[0], ("index".to_string(), "18".to_string())),
        _ => panic!("expected a request"),
    }
    let action = c.node_drain_step(&mut drain, DrainEvent::NodeDetails(details(node("n1", None, false), 19)));
    assert!(matches!(action, DrainAction::Done));
    assert!(drain.is_finished());
}

#[test]
fn drain_monitor_with_own_wait_and_errors() {
    let c = client();
    let (mut drain, request) = c.start_drain_monitor("n2", Some(30));
    assert_eq!(request.url, "http://127.0.0.1:4646/v1/node/n2");
    assert!(request.query.is_empty());
    let action = c.node_drain_step(&mut drain, DrainEvent::NodeDetails(details(node("n2", None, true), 3)));
    match action {
        DrainAction::Request(r) => assert_eq!(r.query[1], ("wait".to_string(), "30s".to_string())),
        _ => panic!("expected a request"),
    }
    let action = c.node_drain_step(&mut drain, DrainEvent::NodeDetails(Err(Error::InvalidVaultResponse("gone".to_string()))));
    assert!(matches!(action, DrainAction::Failed(Error::InvalidVaultResponse(_))));

    let (mut drain, _) = c.start_node_drain("n3", true, None);
    let action = c.node_drain_step(&mut drain, DrainEvent::DrainReply(Err(Error::InvalidVaultResponse("no".to_string()))));
    assert!(matches!(action, DrainAction::Failed(_)));
    assert!(drain.is_finished());
}
