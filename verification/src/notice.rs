//! What the node tells its operator.
//!
//! The event loop does not print. It hands out a [`Notice`] for each thing
//! worth telling, and [`Notice::render`] turns a notice into the line that
//! goes to the console.
use vstd::prelude::*;
use vstd::string::*;
use crate::overlay::PublishError;
use crate::utils::base58::base58_encoded;
use crate::utils::peer::{MalformedAddress, NodeIdentifier};

verus! {

/// Whether other nodes can dial this one.
#[derive(Debug, Clone, Copy, PartialEq, Eq, Structural)]
pub enum ReachabilityStatus {
    /// No probe has answered yet.
    Unknown,
    /// Probing peers reached the node.
    Public,
    /// Probing peers could not reach the node.
    Private,
}

/// Something worth telling the operator.
#[derive(Debug, Clone, PartialEq, Eq)]
pub enum Notice {
    /// The node listens; the text is its own full address.
    Listening(String),
    /// A peer is connecting from the given network address.
    Connecting(String),
    /// A connection to the peer stands.
    Connected(NodeIdentifier),
    /// The connection to the peer is closed.
    Disconnected(NodeIdentifier),
    /// The peer has introduced itself.
    Identified(NodeIdentifier),
    /// The routing table was filled through the peer.
    Bootstrapped(NodeIdentifier),
    /// The bootstrap could not be started; the node goes on without it.
    BootstrapFailed(String),
    /// A lookup has found these peers.
    Discovered(Vec<NodeIdentifier>),
    /// A lookup ran out of time.
    QueryTimedOut,
    /// A message has arrived.
    MessageFrom { peer: NodeIdentifier, payload: Vec<u8> },
    /// The operator's line was sent.
    Published,
    /// The operator's line was not sent.
    PublishFailed(PublishError),
    /// The operator's line is no peer address.
    MalformedTarget(MalformedAddress),
    /// Whether the node can be dialled has changed.
    Reachability(ReachabilityStatus),
    /// An event that the node makes nothing of.
    Unrecognized(String),
    /// The node is ready for the operator's input.
    Prompt,
}

/// The identifiers of a list of peers.
pub open spec fn identifiers(peers: Seq<NodeIdentifier>) -> Seq<Seq<u8>> {
    peers.map_values(|peer: NodeIdentifier| peer@)
}

/// A notice as plain values.
pub enum NoticeView {
    Listening(Seq<char>),
    Connecting(Seq<char>),
    Connected(Seq<u8>),
    Disconnected(Seq<u8>),
    Identified(Seq<u8>),
    Bootstrapped(Seq<u8>),
    BootstrapFailed(Seq<char>),
    Discovered(Seq<Seq<u8>>),
    QueryTimedOut,
    MessageFrom { peer: Seq<u8>, payload: Seq<u8> },
    Published,
    PublishFailed(PublishError),
    MalformedTarget(MalformedAddress),
    Reachability(ReachabilityStatus),
    Unrecognized(Seq<char>),
    Prompt,
}

impl View for Notice {
    type V = NoticeView;

    open spec fn view(&self) -> NoticeView {
        match *self {
            Notice::Listening(address) => NoticeView::Listening(address@),
            Notice::Connecting(address) => NoticeView::Connecting(address@),
            Notice::Connected(peer) => NoticeView::Connected(peer@),
            Notice::Disconnected(peer) => NoticeView::Disconnected(peer@),
            Notice::Identified(peer) => NoticeView::Identified(peer@),
            Notice::Bootstrapped(peer) => NoticeView::Bootstrapped(peer@),
            Notice::BootstrapFailed(reason) => NoticeView::BootstrapFailed(reason@),
            Notice::Discovered(peers) => NoticeView::Discovered(identifiers(peers@)),
            Notice::QueryTimedOut => NoticeView::QueryTimedOut,
            Notice::MessageFrom { peer, payload } => NoticeView::MessageFrom {
                peer: peer@,
                payload: payload@,
            },
            Notice::Published => NoticeView::Published,
            Notice::PublishFailed(reason) => NoticeView::PublishFailed(reason),
            Notice::MalformedTarget(fault) => NoticeView::MalformedTarget(fault),
            Notice::Reachability(status) => NoticeView::Reachability(status),
            Notice::Unrecognized(description) => NoticeView::Unrecognized(description@),
            Notice::Prompt => NoticeView::Prompt,
        }
    }
}

/// The text that std's lossy decoding makes of `bytes`.
pub uninterp spec fn lossy_text(bytes: Seq<u8>) -> Seq<char>;

/// Calls `String::from_utf8_lossy` and takes the text out of its answer.
///
/// Trusted: the text depends on the bytes alone, and bytes that are valid
/// UTF-8 are decoded as they stand.
#[verifier::external_body]
fn utf8_lossy(bytes: &Vec<u8>) -> (text: String)
    ensures
        text@ == lossy_text(bytes@),
        vstd::utf8::valid_utf8(bytes@) ==> text@ == vstd::utf8::decode_utf8(bytes@),
{
    String::from_utf8_lossy(bytes).into_owned()
}

/// A peer in a list of peers: `PeerId("<base 58>")`.
pub open spec fn quoted_peer(peer: Seq<u8>) -> Seq<char> {
    "PeerId(\""@ + base58_encoded(peer) + "\")"@
}

/// The first `count` peers of a list, each quoted, with `, ` in between.
pub open spec fn joined_peers(peers: Seq<Seq<u8>>, count: nat) -> Seq<char>
    decreases count,
{
    if count == 0 {
        Seq::empty()
    } else if count == 1 {
        quoted_peer(peers[0])
    } else {
        joined_peers(peers, (count - 1) as nat) + ", "@ + quoted_peer(peers[count - 1])
    }
}

/// Why a line is no peer address, in words.
pub open spec fn fault_text(fault: MalformedAddress) -> Seq<char> {
    match fault {
        MalformedAddress::MissingDelimiter => "no /p2p/ in it"@,
        MalformedAddress::InvalidEncoding => "the identifier is not base 58"@,
        MalformedAddress::InvalidIdentifier => "the identifier is not well formed"@,
    }
}

/// Why a payload was not sent, in words.
pub open spec fn failure_text(reason: PublishError) -> Seq<char> {
    match reason {
        PublishError::NoPeers => "no peers on the topic"@,
        PublishError::SignatureFailure => "the message could not be signed"@,
        PublishError::Duplicate => "the same message was just sent"@,
        PublishError::Refused => "the network refused the message"@,
    }
}

/// Whether the node can be dialled, in words.
pub open spec fn status_text(status: ReachabilityStatus) -> Seq<char> {
    match status {
        ReachabilityStatus::Unknown => "unknown"@,
        ReachabilityStatus::Public => "public"@,
        ReachabilityStatus::Private => "private"@,
    }
}

/// The console line of a notice.
pub open spec fn notice_text(notice: NoticeView) -> Seq<char> {
    match notice {
        NoticeView::Listening(address) => "✅ Local node is listening on "@ + address,
        NoticeView::Connecting(address) => "⏳ Connecting to "@ + address,
        NoticeView::Connected(peer) => "🔗 Connected to "@ + base58_encoded(peer),
        NoticeView::Disconnected(peer) => "💔 Disconnected to "@ + base58_encoded(peer),
        NoticeView::Identified(peer) => "👤 Identify new peer: "@ + base58_encoded(peer),
        NoticeView::Bootstrapped(peer) => "🚀 Kademlia bootstrapped completely: "@ + quoted_peer(
            peer,
        ),
        NoticeView::BootstrapFailed(reason) => "⛔️ Failed to run Kademlia bootstrap: "@ + reason,
        NoticeView::Discovered(peers) => "🔍 Kademlia discovered new peers: ["@ + joined_peers(
            peers,
            peers.len(),
        ) + "]"@,
        NoticeView::QueryTimedOut => "⌛ Kademlia query timed out"@,
        NoticeView::MessageFrom { peer, payload } => "💌 Message from "@ + base58_encoded(peer)
            + ": "@ + lossy_text(payload),
        NoticeView::Published => "🛫 .................. Sent"@,
        NoticeView::PublishFailed(reason) => "❌ Failed to publish the message: "@ + failure_text(
            reason,
        ),
        NoticeView::MalformedTarget(fault) => "❌ Not a peer address: "@ + fault_text(fault),
        NoticeView::Reachability(status) => "📡 Reachability is now "@ + status_text(status),
        NoticeView::Unrecognized(description) => "❓ Other Behaviour events "@ + description,
        NoticeView::Prompt => "💻 Type to send messages to others here:"@,
    }
}

/// `start` followed by `rest`.
fn line(start: &str, rest: &str) -> (text: String)
    ensures
        text@ == start@ + rest@,
{
    let mut text = String::from_str(start);
    text.append(rest);
    text
}

/// A peer as it stands in a list of peers.
fn quote_peer(peer: &NodeIdentifier) -> (text: String)
    ensures
        text@ == quoted_peer(peer@),
{
    let mut text = line("PeerId(\"", peer.to_base58().as_str());
    text.append("\")");
    text
}

/// The peers of a list, each quoted, with `, ` in between.
fn join_peers(peers: &Vec<NodeIdentifier>) -> (text: String)
    ensures
        text@ == joined_peers(identifiers(peers@), peers@.len()),
{
    let mut text = String::new();
    let mut i: usize = 0;
    while i < peers.len()
        invariant
            i <= peers.len(),
            text@ == joined_peers(identifiers(peers@), i as nat),
        decreases peers.len() - i,
    {
        if i > 0 {
            text.append(", ");
        }
        let quoted = quote_peer(&peers[i]);
        assert(identifiers(peers@)[i as int] == peers@[i as int]@);
        text.append(quoted.as_str());
        proof {
            if i == 0 {
                assert(text@ =~= quoted_peer(identifiers(peers@)[0]));
            }
        }
        i += 1;
    }
    text
}

impl Notice {
    /// The line that tells the operator of this notice.
    pub fn render(&self) -> (text: String)
        ensures
            text@ == notice_text(self@),
    {
        match self {
            Notice::Listening(address) => line("✅ Local node is listening on ", address.as_str()),
            Notice::Connecting(address) => line("⏳ Connecting to ", address.as_str()),
            Notice::Connected(peer) => line("🔗 Connected to ", peer.to_base58().as_str()),
            Notice::Disconnected(peer) => line("💔 Disconnected to ", peer.to_base58().as_str()),
            Notice::Identified(peer) => line("👤 Identify new peer: ", peer.to_base58().as_str()),
            Notice::Bootstrapped(peer) => line(
                "🚀 Kademlia bootstrapped completely: ",
                quote_peer(peer).as_str(),
            ),
            Notice::BootstrapFailed(reason) => line(
                "⛔️ Failed to run Kademlia bootstrap: ",
                reason.as_str(),
            ),
            Notice::Discovered(peers) => {
                let mut text = line("🔍 Kademlia discovered new peers: [", join_peers(peers).as_str());
                text.append("]");
                text
            },
            Notice::QueryTimedOut => String::from_str("⌛ Kademlia query timed out"),
            Notice::MessageFrom { peer, payload } => {
                let mut text = line("💌 Message from ", peer.to_base58().as_str());
                text.append(": ");
                text.append(utf8_lossy(payload).as_str());
                text
            },
            Notice::Published => String::from_str("🛫 .................. Sent"),
            Notice::PublishFailed(reason) => line(
                "❌ Failed to publish the message: ",
                match reason {
                    PublishError::NoPeers => "no peers on the topic",
                    PublishError::SignatureFailure => "the message could not be signed",
                    PublishError::Duplicate => "the same message was just sent",
                    PublishError::Refused => "the network refused the message",
                },
            ),
            Notice::MalformedTarget(fault) => line(
                "❌ Not a peer address: ",
                match fault {
                    MalformedAddress::MissingDelimiter => "no /p2p/ in it",
                    MalformedAddress::InvalidEncoding => "the identifier is not base 58",
                    MalformedAddress::InvalidIdentifier => "the identifier is not well formed",
                },
            ),
            Notice::Reachability(status) => line(
                "📡 Reachability is now ",
                match status {
                    ReachabilityStatus::Unknown => "unknown",
                    ReachabilityStatus::Public => "public",
                    ReachabilityStatus::Private => "private",
                },
            ),
            Notice::Unrecognized(description) => line(
                "❓ Other Behaviour events ",
                description.as_str(),
            ),
            Notice::Prompt => String::from_str("💻 Type to send messages to others here:"),
        }
    }
}

} // verus!
