//! The node's event loop, one step at a time.
//!
//! Events from the network stack and lines from the operator arrive in one
//! stream and are handled strictly one after the other. [`Node::handle_event`]
//! takes one event and says what is to be done; whoever runs the loop does it
//! and comes back with the next event. No event ends the loop, and none can
//! fail it.
use vstd::prelude::*;
use vstd::string::*;
use crate::notice::{identifiers, Notice, NoticeView, ReachabilityStatus};
use crate::overlay::{
    acceptable, seen_after, verdict_for, Inbound, Overlay, PublishError,
    SeenFingerprints, Verdict,
};
use crate::routing::{
    bootstrap, bootstrap_outcome, learned_addresses, on_peer_identified, texts, AddressRecord,
    BootstrapError, BootstrapPlan, QuerySignal,
};
use crate::utils::msg::{payload_hash, MessageId};
use crate::utils::peer::{
    format_peer_address, formatted_address, parse_peer_id, parsed_address, NodeIdentifier,
};

verus! {

/// What a line of the operator's input means to the node. The two meanings
/// exclude each other: a node has one of them for its lifetime.
#[derive(Debug, Clone, Copy, PartialEq, Eq, Structural)]
pub enum InputMode {
    /// The line is a message for the overlay topic.
    Publish,
    /// The line is a peer address to look up.
    Lookup,
}

/// What does not change while the node runs.
#[derive(Debug, Clone, PartialEq, Eq)]
pub struct NodeConfig {
    /// The node's own identifier.
    pub local: NodeIdentifier,
    /// Whether events that the node makes nothing of go unmentioned.
    pub silent: bool,
    /// What the operator's input means.
    pub input: InputMode,
    /// The overlay topic that the node joins and publishes on.
    pub topic: String,
}

/// One event of the merged stream.
#[derive(Debug, Clone, PartialEq, Eq)]
pub enum NodeEvent {
    /// The operator has entered a line.
    InputLine(String),
    /// The node listens on a new network address.
    NewListenAddr(String),
    /// A peer is connecting from the given network address.
    IncomingConnection(String),
    /// A connection to the peer stands.
    ConnectionEstablished(NodeIdentifier),
    /// The connection to the peer is closed.
    ConnectionClosed(NodeIdentifier),
    /// The handshake with the peer is done: the protocols it speaks and the
    /// addresses it says it listens on.
    PeerIdentified { peer: NodeIdentifier, protocols: Vec<String>, listen_addrs: Vec<String> },
    /// The bootstrap lookup has ended well at the given peer.
    BootstrapCompleted(NodeIdentifier),
    /// The bootstrap could not be started.
    BootstrapFailed(String),
    /// A lookup reports: the peers found, and whether it goes on.
    QueryProgressed { peers: Vec<NodeIdentifier>, signal: QuerySignal },
    /// A message has arrived on the overlay.
    MessageReceived(Inbound),
    /// The network stack has answered a publish request.
    PublishFinished { id: MessageId, failure: Option<PublishError> },
    /// Probes have shown whether the node can be dialled.
    ReachabilityChanged(ReachabilityStatus),
    /// Anything else, described for the operator.
    Other(String),
}

/// What the loop is to do in answer to an event.
#[derive(Debug, Clone, PartialEq, Eq)]
pub enum NodeAction {
    /// Tell the operator.
    Notify(Notice),
    /// Record an address in the routing table.
    RecordAddress(AddressRecord),
    /// Start the bootstrap lookup for the node's own identifier.
    Bootstrap,
    /// Join the overlay topic.
    Subscribe(String),
    /// Hand a payload to the overlay. The answer comes back as
    /// [`NodeEvent::PublishFinished`] with the same fingerprint.
    Publish { topic: String, payload: Vec<u8>, id: MessageId },
    /// Look up the peers closest to the given identifier.
    LookupClosest(NodeIdentifier),
}

/// An action as plain values.
pub enum ActionView {
    Notify(NoticeView),
    RecordAddress(Seq<u8>, Seq<char>),
    Bootstrap,
    Subscribe(Seq<char>),
    Publish { topic: Seq<char>, payload: Seq<u8>, hash: u64 },
    LookupClosest(Seq<u8>),
}

impl View for NodeAction {
    type V = ActionView;

    open spec fn view(&self) -> ActionView {
        match *self {
            NodeAction::Notify(notice) => ActionView::Notify(notice@),
            NodeAction::RecordAddress(record) => ActionView::RecordAddress(
                record.peer@,
                record.address@,
            ),
            NodeAction::Bootstrap => ActionView::Bootstrap,
            NodeAction::Subscribe(topic) => ActionView::Subscribe(topic@),
            NodeAction::Publish { topic, payload, id } => ActionView::Publish {
                topic: topic@,
                payload: payload@,
                hash: id.hash,
            },
            NodeAction::LookupClosest(target) => ActionView::LookupClosest(target@),
        }
    }
}

/// The actions of a list, as plain values.
pub open spec fn actions_of(list: Seq<NodeAction>) -> Seq<ActionView> {
    list.map_values(|action: NodeAction| action@)
}

/// What changes while the node runs, as plain values.
pub struct NodeStateView {
    /// The remembered fingerprints, oldest first.
    pub seen: Seq<u64>,
    /// How many fingerprints are remembered at most.
    pub limit: nat,
    /// The topics joined.
    pub topics: Seq<Seq<char>>,
    /// Whether the node can be dialled.
    pub reachability: ReachabilityStatus,
}

/// The one action that tells the operator `notice`.
pub open spec fn tell(notice: NoticeView) -> Seq<ActionView> {
    seq![ActionView::Notify(notice)]
}

/// The answer to an operator's line.
pub open spec fn input_actions(config: NodeConfig, state: NodeStateView, line: Seq<char>) -> Seq<
    ActionView,
> {
    match config.input {
        InputMode::Publish => {
            let payload = vstd::utf8::encode_utf8(line);
            if state.seen.contains(payload_hash(payload)) {
                tell(NoticeView::PublishFailed(PublishError::Duplicate))
            } else {
                seq![
                    ActionView::Publish {
                        topic: config.topic@,
                        payload: payload,
                        hash: payload_hash(payload),
                    },
                ]
            }
        },
        InputMode::Lookup => match parsed_address(line) {
            Ok(parts) => seq![ActionView::LookupClosest(parts.0)],
            Err(fault) => tell(NoticeView::MalformedTarget(fault)),
        },
    }
}

/// The answer to a handshake: the peer is announced, then each address it
/// taught is recorded.
pub open spec fn handshake_actions(
    peer: Seq<u8>,
    protocols: Seq<Seq<char>>,
    listen_addrs: Seq<Seq<char>>,
) -> Seq<ActionView> {
    tell(NoticeView::Identified(peer)) + learned_addresses(peer, protocols, listen_addrs).map_values(
        |record: (Seq<u8>, Seq<char>)| ActionView::RecordAddress(record.0, record.1),
    )
}

/// What the loop is to do in answer to `event`, in order.
pub open spec fn expected_actions(config: NodeConfig, state: NodeStateView, event: NodeEvent) -> Seq<
    ActionView,
> {
    match event {
        NodeEvent::InputLine(line) => input_actions(config, state, line@),
        NodeEvent::NewListenAddr(address) => tell(
            NoticeView::Listening(formatted_address(address@, config.local@)),
        ),
        NodeEvent::IncomingConnection(address) => tell(NoticeView::Connecting(address@)),
        NodeEvent::ConnectionEstablished(peer) => tell(NoticeView::Connected(peer@)),
        NodeEvent::ConnectionClosed(peer) => tell(NoticeView::Disconnected(peer@)),
        NodeEvent::PeerIdentified { peer, protocols, listen_addrs } => handshake_actions(
            peer@,
            texts(protocols@),
            texts(listen_addrs@),
        ),
        NodeEvent::BootstrapCompleted(peer) => if peer@ == config.local@ {
            Seq::empty()
        } else {
            tell(NoticeView::Bootstrapped(peer@))
        },
        NodeEvent::BootstrapFailed(reason) => tell(NoticeView::BootstrapFailed(reason@)),
        NodeEvent::QueryProgressed { peers, signal } => match signal {
            QuerySignal::Expired => tell(NoticeView::QueryTimedOut),
            _ => tell(NoticeView::Discovered(identifiers(peers@))),
        },
        NodeEvent::MessageReceived(inbound) => match verdict_for(
            state.seen,
            acceptable(state.topics, inbound),
            payload_hash(inbound.message.data@),
        ) {
            Verdict::Delivered => tell(
                NoticeView::MessageFrom {
                    peer: inbound.propagation_source@,
                    payload: inbound.message.data@,
                },
            ),
            _ => Seq::empty(),
        },
        NodeEvent::PublishFinished { id, failure } => match failure {
            None => tell(NoticeView::Published),
            Some(reason) => tell(NoticeView::PublishFailed(reason)),
        },
        NodeEvent::ReachabilityChanged(status) => if config.silent {
            Seq::empty()
        } else {
            tell(NoticeView::Reachability(status))
        },
        NodeEvent::Other(description) => if config.silent {
            Seq::empty()
        } else {
            tell(NoticeView::Unrecognized(description@))
        },
    }
}

/// The node's state after `event`. Only three kinds of event change it: a
/// message that passed validation is remembered, a payload that was sent is
/// remembered, and a probe's result is noted.
pub open spec fn expected_state(state: NodeStateView, event: NodeEvent) -> NodeStateView {
    match event {
        NodeEvent::MessageReceived(inbound) => NodeStateView {
            seen: seen_after(
                state.seen,
                state.limit,
                acceptable(state.topics, inbound),
                payload_hash(inbound.message.data@),
            ),
            ..state
        },
        NodeEvent::PublishFinished { id, failure } => NodeStateView {
            seen: seen_after(state.seen, state.limit, failure is None, id.hash),
            ..state
        },
        NodeEvent::ReachabilityChanged(status) => NodeStateView { reachability: status, ..state },
        _ => state,
    }
}

/// The running node: its fixed configuration and what changes with events.
#[derive(Debug)]
pub struct Node {
    config: NodeConfig,
    overlay: Overlay,
    reachability: ReachabilityStatus,
}

impl View for Node {
    type V = NodeStateView;

    closed spec fn view(&self) -> NodeStateView {
        NodeStateView {
            seen: self.overlay.seen(),
            limit: self.overlay.limit(),
            topics: self.overlay.topics(),
            reachability: self.reachability,
        }
    }
}

/// What the loop is to do first at startup, in order: join the table
/// through the target, if there is one; join the topic; invite input.
pub open spec fn startup_actions(target: Option<(Seq<u8>, Seq<char>)>, topic: Seq<char>) -> Seq<
    ActionView,
> {
    (match target {
        Some(peer) => seq![ActionView::RecordAddress(peer.0, peer.1), ActionView::Bootstrap],
        None => Seq::empty(),
    }) + seq![ActionView::Subscribe(topic), ActionView::Notify(NoticeView::Prompt)]
}

impl Node {
    /// The node is in a state that its own methods can have left it in.
    pub closed spec fn wf(&self) -> bool {
        self.overlay.wf()
    }

    /// The node's configuration.
    pub closed spec fn config(&self) -> NodeConfig {
        self.config
    }

    /// Starts a node: plans the bootstrap from the optional argument, joins
    /// the topic, and says what the loop is to do first. An unusable
    /// bootstrap argument is the only failure, and the node does not start
    /// with it.
    pub fn start(config: NodeConfig, seen: SeenFingerprints, bootstrap_argument: Option<&String>) -> (started:
        Result<(Node, Vec<NodeAction>), BootstrapError>)
        ensures
            match started {
                Ok((node, actions)) => {
                    &&& node.wf()
                    &&& node.config() == config
                    &&& node@ == NodeStateView {
                        seen: seen@,
                        limit: seen.limit(),
                        topics: seq![config.topic@],
                        reachability: ReachabilityStatus::Unknown,
                    }
                    &&& bootstrap_outcome(
                        match bootstrap_argument {
                            Some(text) => Some(text@),
                            None => None,
                        },
                    ) matches Ok(target)
                    &&& actions_of(actions@) == startup_actions(target, config.topic@)
                },
                Err(e) => bootstrap_outcome(
                    match bootstrap_argument {
                        Some(text) => Some(text@),
                        None => None,
                    },
                ) == Err::<Option<(Seq<u8>, Seq<char>)>, BootstrapError>(e),
            },
    {
        let plan = match bootstrap(bootstrap_argument) {
            Err(e) => { return Err(e); },
            Ok(plan) => plan,
        };
        let ghost target = plan.target();
        let mut actions: Vec<NodeAction> = Vec::new();
        match plan {
            BootstrapPlan::Anchor => {},
            BootstrapPlan::Join(peer) => {
                actions.push(
                    NodeAction::RecordAddress(
                        AddressRecord { peer: peer.identifier, address: peer.address },
                    ),
                );
                actions.push(NodeAction::Bootstrap);
            },
        }
        let mut overlay = Overlay::new(seen);
        overlay.subscribe(config.topic.as_str());
        actions.push(NodeAction::Subscribe(config.topic.clone()));
        actions.push(NodeAction::Notify(Notice::Prompt));
        let node = Node { config, overlay, reachability: ReachabilityStatus::Unknown };
        proof {
            assert(actions_of(actions@) =~= startup_actions(target, config.topic@));
            assert(node@.topics =~= seq![config.topic@]);
        }
        Ok((node, actions))
    }

    /// One step of the event loop: takes the next event, updates what the
    /// node remembers, and says what is to be done, in order. Events are
    /// handled one at a time in the order of their arrival; the answer to an
    /// event depends on the events before it only through the node's state.
    pub fn handle_event(&mut self, event: NodeEvent) -> (actions: Vec<NodeAction>)
        requires
            old(self).wf(),
        ensures
            final(self).wf(),
            final(self).config() == old(self).config(),
            final(self)@ == expected_state(old(self)@, event),
            actions_of(actions@) == expected_actions(old(self).config(), old(self)@, event),
    {
        match event {
            NodeEvent::InputLine(line) => self.on_input_line(line),
            NodeEvent::NewListenAddr(address) => {
                let text = format_peer_address(address.as_str(), &self.config.local);
                one(NodeAction::Notify(Notice::Listening(text)))
            },
            NodeEvent::IncomingConnection(address) => one(
                NodeAction::Notify(Notice::Connecting(address)),
            ),
            NodeEvent::ConnectionEstablished(peer) => one(
                NodeAction::Notify(Notice::Connected(peer)),
            ),
            NodeEvent::ConnectionClosed(peer) => one(
                NodeAction::Notify(Notice::Disconnected(peer)),
            ),
            NodeEvent::PeerIdentified { peer, protocols, listen_addrs } => on_handshake(
                peer,
                protocols,
                listen_addrs,
            ),
            NodeEvent::BootstrapCompleted(peer) => {
                if peer.same_as(&self.config.local) {
                    none()
                } else {
                    one(NodeAction::Notify(Notice::Bootstrapped(peer)))
                }
            },
            NodeEvent::BootstrapFailed(reason) => one(
                NodeAction::Notify(Notice::BootstrapFailed(reason)),
            ),
            NodeEvent::QueryProgressed { peers, signal } => match signal {
                QuerySignal::Expired => one(NodeAction::Notify(Notice::QueryTimedOut)),
                _ => one(NodeAction::Notify(Notice::Discovered(peers))),
            },
            NodeEvent::MessageReceived(inbound) => {
                match self.overlay.on_message_received(&inbound) {
                    Verdict::Delivered => one(
                        NodeAction::Notify(
                            Notice::MessageFrom {
                                peer: inbound.propagation_source,
                                payload: inbound.message.data,
                            },
                        ),
                    ),
                    _ => none(),
                }
            },
            NodeEvent::PublishFinished { id, failure } => {
                match failure {
                    None => {
                        self.overlay.on_published(id, true);
                        one(NodeAction::Notify(Notice::Published))
                    },
                    Some(reason) => {
                        self.overlay.on_published(id, false);
                        one(NodeAction::Notify(Notice::PublishFailed(reason)))
                    },
                }
            },
            NodeEvent::ReachabilityChanged(status) => {
                self.reachability = status;
                if self.config.silent {
                    none()
                } else {
                    one(NodeAction::Notify(Notice::Reachability(status)))
                }
            },
            NodeEvent::Other(description) => {
                if self.config.silent {
                    none()
                } else {
                    one(NodeAction::Notify(Notice::Unrecognized(description)))
                }
            },
        }
    }

    /// Answers a line of the operator's input: a payload to publish, or a
    /// peer to look up, as the node is configured.
    fn on_input_line(&self, line: String) -> (actions: Vec<NodeAction>)
        ensures
            actions_of(actions@) == input_actions(self.config(), self@, line@),
    {
        match self.config.input {
            InputMode::Publish => {
                let payload = line.as_str().as_bytes_vec();
                match self.overlay.publish(&payload) {
                    Ok(id) => one(
                        NodeAction::Publish { topic: self.config.topic.clone(), payload, id },
                    ),
                    Err(reason) => one(NodeAction::Notify(Notice::PublishFailed(reason))),
                }
            },
            InputMode::Lookup => match parse_peer_id(&line) {
                Ok(target) => one(NodeAction::LookupClosest(target)),
                Err(fault) => one(NodeAction::Notify(Notice::MalformedTarget(fault))),
            },
        }
    }

    /// The node's own identifier.
    pub fn local(&self) -> (local: &NodeIdentifier)
        ensures
            local@ == self.config().local@,
    {
        &self.config.local
    }

    /// Whether the node can be dialled, as far as probes have shown.
    pub fn reachability(&self) -> (status: ReachabilityStatus)
        ensures
            status == self@.reachability,
    {
        self.reachability
    }
}

/// No action.
fn none() -> (actions: Vec<NodeAction>)
    ensures
        actions_of(actions@) == Seq::<ActionView>::empty(),
{
    let actions: Vec<NodeAction> = Vec::new();
    assert(actions_of(actions@) =~= Seq::<ActionView>::empty());
    actions
}

/// One action.
fn one(action: NodeAction) -> (actions: Vec<NodeAction>)
    ensures
        actions_of(actions@) == seq![action@],
{
    let mut actions: Vec<NodeAction> = Vec::new();
    actions.push(action);
    assert(actions_of(actions@) =~= seq![action@]);
    actions
}

/// Answers a handshake: announces the peer and records what it taught.
fn on_handshake(peer: NodeIdentifier, protocols: Vec<String>, listen_addrs: Vec<String>) -> (actions:
    Vec<NodeAction>)
    ensures
        actions_of(actions@) == handshake_actions(peer@, texts(protocols@), texts(listen_addrs@)),
{
    let learned = on_peer_identified(&peer, &protocols, &listen_addrs);
    let ghost taught = learned_addresses(peer@, texts(protocols@), texts(listen_addrs@));
    let mut actions: Vec<NodeAction> = Vec::new();
    actions.push(NodeAction::Notify(Notice::Identified(peer)));
    for record in it: learned
        invariant
            it.seq().len() == taught.len(),
            forall|j: int| 0 <= j < it.seq().len() ==> (#[trigger] it.seq()[j])@ == taught[j],
            actions@.len() == 1 + it.index(),
            actions@[0]@ == ActionView::Notify(NoticeView::Identified(peer@)),
            forall|j: int|
                1 <= j < actions@.len() ==> (#[trigger] actions@[j])@ == ActionView::RecordAddress(
                    taught[j - 1].0,
                    taught[j - 1].1,
                ),
    {
        actions.push(NodeAction::RecordAddress(record));
    }
    assert(actions_of(actions@) =~= handshake_actions(
        peer@,
        texts(protocols@),
        texts(listen_addrs@),
    ));
    actions
}

} // verus!
