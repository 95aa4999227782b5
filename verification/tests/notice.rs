use desnet::notice::{Notice, ReachabilityStatus};
use desnet::overlay::PublishError;
use desnet::utils::peer::{MalformedAddress, NodeIdentifier};

const FIRST: &str = "12D3KooWDpJ7As7BWAwRMfu1VU2WCqNjvq387JEYKDBj4kx6nXTN";
const SECOND: &str = "QmYyQSo1c1Ym7orWxLYvCrM2EmxFTANf8wXmmE7DWjhx5N";

fn named(text: &str) -> NodeIdentifier {
    NodeIdentifier::from_bytes(&bs58::decode(text).into_vec().unwrap()).unwrap()
}

#[test]
fn connection_notices_name_the_peer_in_base58() {
    assert_eq!(Notice::Connected(named(FIRST)).render(), format!("🔗 Connected to {FIRST}"));
    assert_eq!(Notice::Disconnected(named(SECOND)).render(), format!("💔 Disconnected to {SECOND}"));
    assert_eq!(Notice::Identified(named(FIRST)).render(), format!("👤 Identify new peer: {FIRST}"));
    assert_eq!(
        Notice::Connecting("/ip4/10.0.0.9/tcp/5".to_string()).render(),
        "⏳ Connecting to /ip4/10.0.0.9/tcp/5"
    );
    assert_eq!(
        Notice::Listening(format!("/ip4/0.0.0.0/tcp/1/p2p/{FIRST}")).render(),
        format!("✅ Local node is listening on /ip4/0.0.0.0/tcp/1/p2p/{FIRST}")
    );
}

#[test]
fn routing_notices_quote_peers_as_the_network_stack_does() {
    let theirs: libp2p::PeerId = FIRST.parse().unwrap();
    assert_eq!(
        Notice::Bootstrapped(named(FIRST)).render(),
        format!("🚀 Kademlia bootstrapped completely: {theirs:?}")
    );
    let both: Vec<libp2p::PeerId> = vec![FIRST.parse().unwrap(), SECOND.parse().unwrap()];
    assert_eq!(
        Notice::Discovered(vec![named(FIRST), named(SECOND)]).render(),
        format!("🔍 Kademlia discovered new peers: {both:?}")
    );
    assert_eq!(
        Notice::Discovered(vec![named(SECOND)]).render(),
        format!("🔍 Kademlia discovered new peers: [PeerId(\"{SECOND}\")]")
    );
    assert_eq!(Notice::Discovered(vec![]).render(), "🔍 Kademlia discovered new peers: []");
    assert_eq!(Notice::QueryTimedOut.render(), "⌛ Kademlia query timed out");
    assert_eq!(
        Notice::BootstrapFailed("NoKnownPeers".to_string()).render(),
        "⛔️ Failed to run Kademlia bootstrap: NoKnownPeers"
    );
}

#[test]
fn a_message_is_shown_as_text() {
    assert_eq!(
        Notice::MessageFrom { peer: named(FIRST), payload: b"hello".to_vec() }.render(),
        format!("💌 Message from {FIRST}: hello")
    );
    assert_eq!(
        Notice::MessageFrom { peer: named(FIRST), payload: "gr\u{00fc}\u{00df}e".as_bytes().to_vec() }
            .render(),
        format!("💌 Message from {FIRST}: gr\u{00fc}\u{00df}e")
    );
    assert_eq!(
        Notice::MessageFrom { peer: named(FIRST), payload: vec![b'a', 0xff, b'b'] }.render(),
        format!("💌 Message from {FIRST}: a\u{fffd}b")
    );
    assert_eq!(
        Notice::MessageFrom { peer: named(FIRST), payload: vec![] }.render(),
        format!("💌 Message from {FIRST}: ")
    );
}

#[test]
fn failures_are_told_in_words() {
    assert_eq!(
        Notice::PublishFailed(PublishError::NoPeers).render(),
        "❌ Failed to publish the message: no peers on the topic"
    );
    assert_eq!(
        Notice::PublishFailed(PublishError::SignatureFailure).render(),
        "❌ Failed to publish the message: the message could not be signed"
    );
    assert_eq!(
        Notice::PublishFailed(PublishError::Duplicate).render(),
        "❌ Failed to publish the message: the same message was just sent"
    );
    assert_eq!(
        Notice::PublishFailed(PublishError::Refused).render(),
        "❌ Failed to publish the message: the network refused the message"
    );
    assert_eq!(
        Notice::MalformedTarget(MalformedAddress::MissingDelimiter).render(),
        "❌ Not a peer address: no /p2p/ in it"
    );
    assert_eq!(
        Notice::MalformedTarget(MalformedAddress::InvalidEncoding).render(),
        "❌ Not a peer address: the identifier is not base 58"
    );
    assert_eq!(
        Notice::MalformedTarget(MalformedAddress::InvalidIdentifier).render(),
        "❌ Not a peer address: the identifier is not well formed"
    );
}

#[test]
fn the_remaining_notices_have_their_lines() {
    assert_eq!(Notice::Published.render(), "🛫 .................. Sent");
    assert_eq!(Notice::Prompt.render(), "💻 Type to send messages to others here:");
    assert_eq!(
        Notice::Unrecognized("Dialing(..)".to_string()).render(),
        "❓ Other Behaviour events Dialing(..)"
    );
    assert_eq!(
        Notice::Reachability(ReachabilityStatus::Unknown).render(),
        "📡 Reachability is now unknown"
    );
    assert_eq!(
        Notice::Reachability(ReachabilityStatus::Public).render(),
        "📡 Reachability is now public"
    );
    assert_eq!(
        Notice::Reachability(ReachabilityStatus::Private).render(),
        "📡 Reachability is now private"
    );
}
