//! The routing-table controller's decisions: how the node joins the table,
//! what it learns from a peer's handshake, and how a query ends.
//!
//! The table itself lives in the network stack. This module says which
//! addresses are to be recorded in it and when a lookup is to be issued.
use vstd::prelude::*;
use vstd::string::*;
use crate::utils::peer::{
    parse_peer_address, parsed_address, MalformedAddress, NodeIdentifier,
};
use crate::utils::text::same_text;

verus! {

/// Seconds after which an outstanding query is given up.
pub const QUERY_TIMEOUT_SECS: u64 = 300;

/// The protocol name under which peers offer the routing table.
pub open spec fn routing_protocol() -> Seq<char> {
    "/ipfs/kad/1.0.0"@
}

/// Whether `libp2p` reads `text` as a multiaddress.
pub uninterp spec fn is_multiaddr(text: Seq<char>) -> bool;

/// Reads `libp2p::kad::PROTOCOL_NAME`.
///
/// Trusted: the constant is `/ipfs/kad/1.0.0`.
#[verifier::external_body]
fn routing_protocol_name() -> (name: String)
    ensures
        name@ == routing_protocol(),
{
    libp2p::kad::PROTOCOL_NAME.to_string()
}

/// Calls `str::parse::<Multiaddr>` and says whether it succeeded.
///
/// Trusted: the answer depends on the text alone.
#[verifier::external_body]
fn multiaddr_parses(text: &str) -> (valid: bool)
    ensures
        valid == is_multiaddr(text@),
{
    text.parse::<libp2p::Multiaddr>().is_ok()
}

/// The texts of a list of strings.
pub open spec fn texts(list: Seq<String>) -> Seq<Seq<char>> {
    list.map_values(|text: String| text@)
}

/// An address to be recorded in the routing table.
#[derive(Debug, Clone, PartialEq, Eq)]
pub struct AddressRecord {
    /// Whose address it is.
    pub peer: NodeIdentifier,
    /// The address, as text.
    pub address: String,
}

impl View for AddressRecord {
    type V = (Seq<u8>, Seq<char>);

    open spec fn view(&self) -> (Seq<u8>, Seq<char>) {
        (self.peer@, self.address@)
    }
}

/// The records of a list.
pub open spec fn records(list: Seq<AddressRecord>) -> Seq<(Seq<u8>, Seq<char>)> {
    list.map_values(|record: AddressRecord| record@)
}

/// What a handshake teaches the routing table: every address that the peer
/// reports, if the peer offers the routing protocol, and nothing otherwise.
pub open spec fn learned_addresses(
    peer: Seq<u8>,
    protocols: Seq<Seq<char>>,
    listen_addrs: Seq<Seq<char>>,
) -> Seq<(Seq<u8>, Seq<char>)> {
    if protocols.contains(routing_protocol()) {
        listen_addrs.map_values(|address: Seq<char>| (peer, address))
    } else {
        Seq::empty()
    }
}

/// Whether a peer that speaks `protocols` offers the routing table.
pub fn supports_routing(protocols: &Vec<String>) -> (offered: bool)
    ensures
        offered == texts(protocols@).contains(routing_protocol()),
{
    let wanted = routing_protocol_name();
    let mut i: usize = 0;
    while i < protocols.len()
        invariant
            i <= protocols.len(),
            wanted@ == routing_protocol(),
            forall|j: int| 0 <= j < i ==> texts(protocols@)[j] != routing_protocol(),
        decreases protocols.len() - i,
    {
        if same_text(protocols[i].as_str(), wanted.as_str()) {
            assert(texts(protocols@)[i as int] == routing_protocol());
            return true;
        }
        assert(texts(protocols@)[i as int] == protocols@[i as int]@);
        i += 1;
    }
    false
}

/// Handles a "peer identified" event: the addresses to record for the peer.
/// This is the only way the table learns of peers it did not ask for, and it
/// happens once per handshake.
pub fn on_peer_identified(
    peer: &NodeIdentifier,
    protocols: &Vec<String>,
    listen_addrs: &Vec<String>,
) -> (learned: Vec<AddressRecord>)
    ensures
        records(learned@) == learned_addresses(peer@, texts(protocols@), texts(listen_addrs@)),
{
    let mut learned: Vec<AddressRecord> = Vec::new();
    if !supports_routing(protocols) {
        assert(records(learned@) =~= Seq::empty());
        return learned;
    }
    let mut i: usize = 0;
    while i < listen_addrs.len()
        invariant
            i <= listen_addrs.len(),
            learned@.len() == i,
            forall|j: int|
                0 <= j < i ==> (#[trigger] learned@[j])@ == (peer@, listen_addrs@[j]@),
        decreases listen_addrs.len() - i,
    {
        learned.push(AddressRecord { peer: peer.clone(), address: listen_addrs[i].clone() });
        i += 1;
    }
    assert(records(learned@) =~= texts(listen_addrs@).map_values(
        |address: Seq<char>| (peer@, address),
    ));
    learned
}

/// The peer through which the node joins the table.
#[derive(Debug, Clone, PartialEq, Eq)]
pub struct BootstrapTarget {
    /// The peer's identifier.
    pub identifier: NodeIdentifier,
    /// The peer's full address, identifier included, as it was given.
    pub address: String,
}

/// Why a bootstrap argument is unusable. The node does not start with one.
#[derive(Debug, Clone, Copy, PartialEq, Eq, Structural)]
pub enum BootstrapError {
    /// The argument does not end in a node identifier.
    MalformedPeer(MalformedAddress),
    /// The argument is no network address.
    MalformedAddress,
}

/// How the node joins the routing table.
#[derive(Debug, Clone, PartialEq, Eq)]
pub enum BootstrapPlan {
    /// No target was given: the node is the table's first member. It records
    /// nothing and looks nobody up, and waits to be found.
    Anchor,
    /// Record the target's address, then look up the node's own identifier.
    Join(BootstrapTarget),
}

/// What a bootstrap argument leads to, if it is usable.
pub open spec fn bootstrap_outcome(argument: Option<Seq<char>>) -> Result<
    Option<(Seq<u8>, Seq<char>)>,
    BootstrapError,
> {
    match argument {
        None => Ok(None),
        Some(text) => match parsed_address(text) {
            Err(fault) => Err(BootstrapError::MalformedPeer(fault)),
            Ok(parts) => if is_multiaddr(text) {
                Ok(Some((parts.0, text)))
            } else {
                Err(BootstrapError::MalformedAddress)
            },
        },
    }
}

impl BootstrapPlan {
    /// The target's identifier and address, where the plan has a target.
    pub open spec fn target(&self) -> Option<(Seq<u8>, Seq<char>)> {
        match *self {
            BootstrapPlan::Anchor => None,
            BootstrapPlan::Join(target) => Some((target.identifier@, target.address@)),
        }
    }
}

/// Plans the bootstrap from the optional argument, which has the form
/// `<network-address>/p2p/<identifier>`.
pub fn bootstrap(argument: Option<&String>) -> (plan: Result<BootstrapPlan, BootstrapError>)
    ensures
        match plan {
            Ok(made) => bootstrap_outcome(
                match argument {
                    Some(text) => Some(text@),
                    None => None,
                },
            ) == Ok::<Option<(Seq<u8>, Seq<char>)>, BootstrapError>(made.target()),
            Err(e) => bootstrap_outcome(
                match argument {
                    Some(text) => Some(text@),
                    None => None,
                },
            ) == Err::<Option<(Seq<u8>, Seq<char>)>, BootstrapError>(e),
        },
{
    let text = match argument {
        None => { return Ok(BootstrapPlan::Anchor); },
        Some(text) => text,
    };
    let peer = match parse_peer_address(text) {
        Err(fault) => { return Err(BootstrapError::MalformedPeer(fault)); },
        Ok(peer) => peer,
    };
    if !multiaddr_parses(text.as_str()) {
        return Err(BootstrapError::MalformedAddress);
    }
    Ok(BootstrapPlan::Join(BootstrapTarget { identifier: peer.identifier, address: text.clone() }))
}

/// Where an outstanding query stands.
#[derive(Debug, Clone, Copy, PartialEq, Eq, Structural)]
pub enum QueryPhase {
    /// Sent out; nothing has come back.
    Issued,
    /// At least one round has reported peers; more may follow.
    Progressing,
    /// The last round has reported. Final.
    Completed,
    /// The time ran out first. Final. The query is not tried again by
    /// itself.
    TimedOut,
}

/// What the network stack reports of a query.
#[derive(Debug, Clone, Copy, PartialEq, Eq, Structural)]
pub enum QuerySignal {
    /// A round has reported; the query goes on.
    Progress,
    /// The last round has reported.
    Finished,
    /// The time ran out.
    Expired,
}

impl QueryPhase {
    /// Whether the query has ended.
    pub open spec fn is_final(self) -> bool {
        self == QueryPhase::Completed || self == QueryPhase::TimedOut
    }

    /// The phase after `signal`.
    pub open spec fn after(self, signal: QuerySignal) -> QueryPhase {
        if self.is_final() {
            self
        } else {
            match signal {
                QuerySignal::Progress => QueryPhase::Progressing,
                QuerySignal::Finished => QueryPhase::Completed,
                QuerySignal::Expired => QueryPhase::TimedOut,
            }
        }
    }

    /// Moves the query on by one report. A query that has ended stays as it
    /// ended.
    pub fn advance(self, signal: QuerySignal) -> (next: QueryPhase)
        ensures
            next == self.after(signal),
    {
        match self {
            QueryPhase::Completed => QueryPhase::Completed,
            QueryPhase::TimedOut => QueryPhase::TimedOut,
            _ => match signal {
                QuerySignal::Progress => QueryPhase::Progressing,
                QuerySignal::Finished => QueryPhase::Completed,
                QuerySignal::Expired => QueryPhase::TimedOut,
            },
        }
    }
}

/// The phase of a query after a sequence of reports, starting from `phase`.
pub open spec fn phase_after(phase: QueryPhase, signals: Seq<QuerySignal>) -> QueryPhase
    decreases signals.len(),
{
    if signals.len() == 0 {
        phase
    } else {
        phase_after(phase.after(signals[0]), signals.drop_first())
    }
}

/// A query that has ended keeps its outcome whatever is reported later: one
/// that timed out never counts as completed, and one that completed never
/// counts as timed out.
pub proof fn lemma_final_phase_is_kept(phase: QueryPhase, signals: Seq<QuerySignal>)
    requires
        phase.is_final(),
    ensures
        phase_after(phase, signals) == phase,
    decreases signals.len(),
{
    if signals.len() > 0 {
        lemma_final_phase_is_kept(phase, signals.drop_first());
    }
}

/// A query whose time runs out before its last round reports ends as timed
/// out: rounds of progress followed by the expiry give `TimedOut`, whatever
/// follows.
pub proof fn lemma_expiry_before_finish_times_out(
    rounds: Seq<QuerySignal>,
    later: Seq<QuerySignal>,
)
    requires
        forall|i: int| 0 <= i < rounds.len() ==> rounds[i] == QuerySignal::Progress,
    ensures
        phase_after(QueryPhase::Issued, rounds.push(QuerySignal::Expired) + later)
            == QueryPhase::TimedOut,
{
    lemma_progress_then(QueryPhase::Issued, rounds, seq![QuerySignal::Expired] + later);
    assert(rounds.push(QuerySignal::Expired) + later =~= rounds + (seq![QuerySignal::Expired]
        + later));
    let rest = seq![QuerySignal::Expired] + later;
    assert(rest.drop_first() =~= later);
    let reached = if rounds.len() == 0 {
        QueryPhase::Issued
    } else {
        QueryPhase::Progressing
    };
    assert(phase_after(reached, rest) == phase_after(QueryPhase::TimedOut, later));
    lemma_final_phase_is_kept(QueryPhase::TimedOut, later);
}

/// Rounds of progress leave a running query running.
proof fn lemma_progress_then(phase: QueryPhase, rounds: Seq<QuerySignal>, rest: Seq<QuerySignal>)
    requires
        !phase.is_final(),
        forall|i: int| 0 <= i < rounds.len() ==> rounds[i] == QuerySignal::Progress,
    ensures
        phase_after(phase, rounds + rest) == phase_after(
            if rounds.len() == 0 {
                phase
            } else {
                QueryPhase::Progressing
            },
            rest,
        ),
    decreases rounds.len(),
{
    if rounds.len() == 0 {
        assert(rounds + rest =~= rest);
    } else {
        let all = rounds + rest;
        assert(all[0] == rounds[0]);
        assert(all.drop_first() =~= rounds.drop_first() + rest);
        lemma_progress_then(QueryPhase::Progressing, rounds.drop_first(), rest);
    }
}

} // verus!
