use desnet::node::{InputMode, Node, NodeAction, NodeConfig, NodeEvent};
use desnet::notice::{Notice, ReachabilityStatus};
use desnet::overlay::{Inbound, PublishError, SeenFingerprints};
use desnet::routing::{AddressRecord, BootstrapError, QuerySignal};
use desnet::utils::msg::{fingerprint, Message};
use desnet::utils::peer::{ed25519_from_seed, MalformedAddress, NodeIdentifier};

const TOPIC: &str = "desnet-the-room";

fn node_of(seed: &str) -> NodeIdentifier {
    ed25519_from_seed(&seed.to_string()).unwrap().identifier().clone()
}

fn config_of(seed: &str, silent: bool, input: InputMode) -> NodeConfig {
    NodeConfig { local: node_of(seed), silent, input, topic: TOPIC.to_string() }
}

fn started(seed: &str, silent: bool, input: InputMode) -> Node {
    Node::start(config_of(seed, silent, input), SeenFingerprints::default(), None).unwrap().0
}

fn arrival(from: &NodeIdentifier, data: &[u8], signature_valid: bool) -> NodeEvent {
    NodeEvent::MessageReceived(Inbound {
        propagation_source: from.clone(),
        message: Message {
            source: Some(from.clone()),
            data: data.to_vec(),
            sequence_number: Some(1),
            topic: TOPIC.to_string(),
        },
        signature_valid,
    })
}

fn told(notice: Notice) -> Vec<NodeAction> {
    vec![NodeAction::Notify(notice)]
}

#[test]
fn a_node_without_target_starts_as_its_own_anchor() {
    let (node, actions) =
        Node::start(config_of("a", false, InputMode::Publish), SeenFingerprints::default(), None)
            .unwrap();
    assert_eq!(
        actions,
        vec![NodeAction::Subscribe(TOPIC.to_string()), NodeAction::Notify(Notice::Prompt)]
    );
    assert_eq!(node.local(), &node_of("a"));
    assert_eq!(node.reachability(), ReachabilityStatus::Unknown);
}

#[test]
fn a_node_with_target_records_it_and_bootstraps() {
    let b = node_of("b");
    let address = format!("/ip4/127.0.0.1/tcp/4001/p2p/{}", b.to_base58());
    let (mut node, actions) = Node::start(
        config_of("a", false, InputMode::Publish),
        SeenFingerprints::default(),
        Some(&address),
    ).unwrap();
    assert_eq!(
        actions,
        vec![
            NodeAction::RecordAddress(AddressRecord { peer: b.clone(), address: address.clone() }),
            NodeAction::Bootstrap,
            NodeAction::Subscribe(TOPIC.to_string()),
            NodeAction::Notify(Notice::Prompt),
        ]
    );
    assert_eq!(
        node.handle_event(NodeEvent::BootstrapCompleted(b.clone())),
        told(Notice::Bootstrapped(b))
    );
    assert_eq!(node.handle_event(NodeEvent::BootstrapCompleted(node_of("a"))), vec![]);
}

#[test]
fn a_node_does_not_start_with_an_unusable_target() {
    let refused = Node::start(
        config_of("a", false, InputMode::Publish),
        SeenFingerprints::default(),
        Some(&"/ip4/127.0.0.1/tcp/4001".to_string()),
    );
    assert_eq!(
        refused.map(|_| ()),
        Err(BootstrapError::MalformedPeer(MalformedAddress::MissingDelimiter))
    );
    let refused = Node::start(
        config_of("a", false, InputMode::Publish),
        SeenFingerprints::default(),
        Some(&format!("nonsense/p2p/{}", node_of("b").to_base58())),
    );
    assert_eq!(refused.map(|_| ()), Err(BootstrapError::MalformedAddress));
}

#[test]
fn a_failed_bootstrap_is_told_and_the_node_goes_on() {
    let mut node = started("a", false, InputMode::Publish);
    assert_eq!(
        node.handle_event(NodeEvent::BootstrapFailed("NoKnownPeers".to_string())),
        told(Notice::BootstrapFailed("NoKnownPeers".to_string()))
    );
    assert_eq!(
        node.handle_event(NodeEvent::ConnectionEstablished(node_of("b"))),
        told(Notice::Connected(node_of("b")))
    );
}

#[test]
fn an_anchor_learns_addresses_later_and_looks_itself_up() {
    let mut node = started("a", false, InputMode::Lookup);
    let b = node_of("b");
    let actions = node.handle_event(NodeEvent::PeerIdentified {
        peer: b.clone(),
        protocols: vec!["/ipfs/id/1.0.0".to_string(), "/ipfs/kad/1.0.0".to_string()],
        listen_addrs: vec!["/ip4/10.0.0.2/tcp/7".to_string(), "/ip4/10.0.0.3/tcp/7".to_string()],
    });
    assert_eq!(
        actions,
        vec![
            NodeAction::Notify(Notice::Identified(b.clone())),
            NodeAction::RecordAddress(AddressRecord {
                peer: b.clone(),
                address: "/ip4/10.0.0.2/tcp/7".to_string(),
            }),
            NodeAction::RecordAddress(AddressRecord {
                peer: b.clone(),
                address: "/ip4/10.0.0.3/tcp/7".to_string(),
            }),
        ]
    );
    let own = format!("/ip4/127.0.0.1/tcp/1/p2p/{}", node_of("a").to_base58());
    assert_eq!(
        node.handle_event(NodeEvent::InputLine(own)),
        vec![NodeAction::LookupClosest(node_of("a"))]
    );
    assert_eq!(
        node.handle_event(NodeEvent::QueryProgressed {
            peers: vec![node_of("a"), b.clone()],
            signal: QuerySignal::Finished,
        }),
        told(Notice::Discovered(vec![node_of("a"), b]))
    );
}

#[test]
fn a_handshake_without_the_routing_protocol_records_nothing() {
    let mut node = started("a", false, InputMode::Publish);
    let b = node_of("b");
    let actions = node.handle_event(NodeEvent::PeerIdentified {
        peer: b.clone(),
        protocols: vec!["/ipfs/id/1.0.0".to_string()],
        listen_addrs: vec!["/ip4/10.0.0.2/tcp/7".to_string()],
    });
    assert_eq!(actions, told(Notice::Identified(b)));
}

#[test]
fn a_published_hello_is_delivered_once_with_its_sender() {
    let a = node_of("a");
    let mut sender = started("a", false, InputMode::Publish);
    let mut receiver = started("b", false, InputMode::Publish);
    let actions = sender.handle_event(NodeEvent::InputLine("hello".to_string()));
    let id = fingerprint(&b"hello".to_vec());
    assert_eq!(
        actions,
        vec![NodeAction::Publish { topic: TOPIC.to_string(), payload: b"hello".to_vec(), id }]
    );
    assert_eq!(
        sender.handle_event(NodeEvent::PublishFinished { id, failure: None }),
        told(Notice::Published)
    );
    assert_eq!(
        receiver.handle_event(arrival(&a, b"hello", true)),
        told(Notice::MessageFrom { peer: a.clone(), payload: b"hello".to_vec() })
    );
    assert_eq!(receiver.handle_event(arrival(&a, b"hello", true)), vec![]);
}

#[test]
fn the_same_line_twice_in_a_row_is_sent_once() {
    let mut sender = started("a", false, InputMode::Publish);
    let id = fingerprint(&b"hello".to_vec());
    assert_eq!(sender.handle_event(NodeEvent::InputLine("hello".to_string())).len(), 1);
    sender.handle_event(NodeEvent::PublishFinished { id, failure: None });
    assert_eq!(
        sender.handle_event(NodeEvent::InputLine("hello".to_string())),
        told(Notice::PublishFailed(PublishError::Duplicate))
    );
    assert_eq!(sender.handle_event(arrival(&node_of("b"), b"hello", true)), vec![]);
}

#[test]
fn a_line_that_was_not_sent_may_be_tried_again() {
    let mut sender = started("a", false, InputMode::Publish);
    let id = fingerprint(&b"hello".to_vec());
    sender.handle_event(NodeEvent::InputLine("hello".to_string()));
    assert_eq!(
        sender.handle_event(NodeEvent::PublishFinished {
            id,
            failure: Some(PublishError::NoPeers),
        }),
        told(Notice::PublishFailed(PublishError::NoPeers))
    );
    assert_eq!(
        sender.handle_event(NodeEvent::InputLine("hello".to_string())),
        vec![NodeAction::Publish { topic: TOPIC.to_string(), payload: b"hello".to_vec(), id }]
    );
    assert_eq!(
        sender.handle_event(NodeEvent::PublishFinished {
            id,
            failure: Some(PublishError::SignatureFailure),
        }),
        told(Notice::PublishFailed(PublishError::SignatureFailure))
    );
}

#[test]
fn a_corrupted_signature_is_dropped_and_the_good_copy_still_arrives() {
    let a = node_of("a");
    let mut receiver = started("b", false, InputMode::Publish);
    assert_eq!(receiver.handle_event(arrival(&a, b"hello", false)), vec![]);
    assert_eq!(
        receiver.handle_event(arrival(&a, b"hello", true)),
        told(Notice::MessageFrom { peer: a.clone(), payload: b"hello".to_vec() })
    );
    assert_eq!(receiver.handle_event(arrival(&a, b"hello", false)), vec![]);
    assert_eq!(receiver.handle_event(arrival(&a, b"hello", true)), vec![]);
}

#[test]
fn a_query_that_times_out_is_told_and_the_loop_goes_on() {
    let mut node = started("a", true, InputMode::Lookup);
    assert_eq!(
        node.handle_event(NodeEvent::QueryProgressed { peers: vec![], signal: QuerySignal::Expired }),
        told(Notice::QueryTimedOut)
    );
    assert_eq!(
        node.handle_event(NodeEvent::QueryProgressed {
            peers: vec![node_of("b")],
            signal: QuerySignal::Progress,
        }),
        told(Notice::Discovered(vec![node_of("b")]))
    );
    assert_eq!(
        node.handle_event(NodeEvent::InputLine("not an address".to_string())),
        told(Notice::MalformedTarget(MalformedAddress::MissingDelimiter))
    );
}

#[test]
fn connection_events_are_told_and_change_nothing() {
    let mut node = started("a", true, InputMode::Publish);
    let b = node_of("b");
    assert_eq!(
        node.handle_event(NodeEvent::NewListenAddr("/ip4/127.0.0.1/tcp/4001".to_string())),
        told(Notice::Listening(format!(
            "/ip4/127.0.0.1/tcp/4001/p2p/{}",
            node_of("a").to_base58()
        )))
    );
    assert_eq!(
        node.handle_event(NodeEvent::IncomingConnection("/ip4/10.0.0.9/tcp/5".to_string())),
        told(Notice::Connecting("/ip4/10.0.0.9/tcp/5".to_string()))
    );
    assert_eq!(
        node.handle_event(NodeEvent::ConnectionEstablished(b.clone())),
        told(Notice::Connected(b.clone()))
    );
    assert_eq!(
        node.handle_event(NodeEvent::ConnectionClosed(b.clone())),
        told(Notice::Disconnected(b))
    );
    assert_eq!(node.reachability(), ReachabilityStatus::Unknown);
}

#[test]
fn unrecognized_events_are_told_unless_the_node_is_silent() {
    let mut loud = started("a", false, InputMode::Publish);
    let mut quiet = started("a", true, InputMode::Publish);
    assert_eq!(
        loud.handle_event(NodeEvent::Other("Dialing(..)".to_string())),
        told(Notice::Unrecognized("Dialing(..)".to_string()))
    );
    assert_eq!(quiet.handle_event(NodeEvent::Other("Dialing(..)".to_string())), vec![]);
}

#[test]
fn reachability_follows_the_probes() {
    let mut loud = started("a", false, InputMode::Publish);
    let mut quiet = started("a", true, InputMode::Publish);
    assert_eq!(
        loud.handle_event(NodeEvent::ReachabilityChanged(ReachabilityStatus::Private)),
        told(Notice::Reachability(ReachabilityStatus::Private))
    );
    assert_eq!(loud.reachability(), ReachabilityStatus::Private);
    assert_eq!(
        quiet.handle_event(NodeEvent::ReachabilityChanged(ReachabilityStatus::Public)),
        vec![]
    );
    assert_eq!(quiet.reachability(), ReachabilityStatus::Public);
}

#[test]
fn input_means_one_thing_per_node() {
    let line = format!("/ip4/127.0.0.1/tcp/1/p2p/{}", node_of("b").to_base58());
    let mut messaging = started("a", false, InputMode::Publish);
    let mut discovery = started("a", false, InputMode::Lookup);
    assert_eq!(
        messaging.handle_event(NodeEvent::InputLine(line.clone())),
        vec![NodeAction::Publish {
            topic: TOPIC.to_string(),
            payload: line.clone().into_bytes(),
            id: fingerprint(&line.clone().into_bytes()),
        }]
    );
    assert_eq!(
        discovery.handle_event(NodeEvent::InputLine(line)),
        vec![NodeAction::LookupClosest(node_of("b"))]
    );
}
