//! The overlay messaging controller: which topics the node has joined, which
//! inbound messages reach the application, and which payloads may be sent.
//!
//! A message is checked before it is looked up: one that fails validation is
//! dropped without a trace, so that a later good copy still gets through. A
//! message that passes is delivered once; its fingerprint is then kept among
//! the most recent ones, and every further copy is dropped while it stays
//! there.
use vstd::prelude::*;
use vstd::string::*;
use crate::utils::msg::{fingerprint, message_id, payload_hash, Message, MessageId};
use crate::utils::peer::NodeIdentifier;
use crate::utils::text::same_text;

verus! {

/// How many fingerprints a node remembers unless told otherwise.
pub const DEFAULT_CAPACITY: usize = 4096;

/// The fingerprints kept after `hash` was seen, oldest first: a known one
/// changes nothing, a new one is added at the end and pushes the oldest out
/// once `capacity` is reached.
pub open spec fn remembered(seen: Seq<u64>, capacity: nat, hash: u64) -> Seq<u64> {
    if seen.contains(hash) {
        seen
    } else if seen.len() < capacity {
        seen.push(hash)
    } else {
        seen.drop_first().push(hash)
    }
}

/// A valid model of the remembered fingerprints: at most `capacity` of them,
/// none twice, and room for at least one.
pub open spec fn is_seen_set(seen: Seq<u64>, capacity: nat) -> bool {
    &&& capacity >= 1
    &&& seen.len() <= capacity
    &&& seen.no_duplicates()
}

/// Remembering keeps the set valid and holds the fingerprint afterwards.
pub proof fn lemma_remembered_is_seen_set(seen: Seq<u64>, capacity: nat, hash: u64)
    requires
        is_seen_set(seen, capacity),
    ensures
        is_seen_set(remembered(seen, capacity, hash), capacity),
        remembered(seen, capacity, hash).contains(hash),
{
    let after = remembered(seen, capacity, hash);
    if seen.contains(hash) {
    } else if seen.len() < capacity {
        assert(after[seen.len() as int] == hash);
    } else {
        let kept = seen.drop_first();
        assert forall|i: int, j: int| 0 <= i < kept.len() && 0 <= j < kept.len() && i != j implies kept[i]
            != kept[j] by {
            assert(kept[i] == seen[i + 1] && kept[j] == seen[j + 1]);
        }
        assert forall|i: int| 0 <= i < kept.len() implies kept[i] != hash by {
            assert(kept[i] == seen[i + 1]);
            assert(seen.contains(seen[i + 1]));
        }
        assert(after[kept.len() as int] == hash);
    }
}

/// The bounded set of recently seen fingerprints.
#[derive(Debug)]
pub struct SeenFingerprints {
    recent: Vec<u64>,
    capacity: usize,
}

impl View for SeenFingerprints {
    type V = Seq<u64>;

    /// The remembered hashes, oldest first.
    closed spec fn view(&self) -> Seq<u64> {
        self.recent@
    }
}

impl SeenFingerprints {
    #[verifier::type_invariant]
    spec fn bounded(&self) -> bool {
        is_seen_set(self.recent@, self.capacity as nat)
    }

    /// How many fingerprints are kept at most.
    pub closed spec fn limit(&self) -> nat {
        self.capacity as nat
    }

    /// An empty set that keeps up to `capacity` fingerprints. A set without
    /// room for a single one is refused.
    pub fn with_capacity(capacity: usize) -> (made: Option<SeenFingerprints>)
        ensures
            made is Some <==> capacity >= 1,
            made matches Some(set) ==> set@ == Seq::<u64>::empty() && set.limit() == capacity,
    {
        if capacity == 0 {
            None
        } else {
            Some(SeenFingerprints { recent: Vec::new(), capacity })
        }
    }

    /// How many fingerprints are kept now.
    pub fn len(&self) -> (n: usize)
        ensures
            n == self@.len(),
            n <= self.limit(),
            is_seen_set(self@, self.limit()),
    {
        proof {
            use_type_invariant(self);
        }
        self.recent.len()
    }

    /// Whether `id` is among the remembered fingerprints.
    pub fn contains(&self, id: MessageId) -> (known: bool)
        ensures
            known == self@.contains(id.hash),
    {
        let mut i: usize = 0;
        while i < self.recent.len()
            invariant
                i <= self.recent.len(),
                forall|j: int| 0 <= j < i ==> self.recent@[j] != id.hash,
            decreases self.recent.len() - i,
        {
            if self.recent[i] == id.hash {
                return true;
            }
            i += 1;
        }
        false
    }

    /// Remembers `id`, forgetting the oldest fingerprint where the set is
    /// full.
    pub fn remember(&mut self, id: MessageId)
        ensures
            final(self)@ == remembered(old(self)@, old(self).limit(), id.hash),
            final(self).limit() == old(self).limit(),
    {
        proof {
            use_type_invariant(&*self);
            lemma_remembered_is_seen_set(self.recent@, self.capacity as nat, id.hash);
        }
        if self.contains(id) {
            return ;
        }
        let mut recent: Vec<u64> = Vec::new();
        let start: usize = if self.recent.len() < self.capacity { 0 } else { 1 };
        let mut i: usize = start;
        while i < self.recent.len()
            invariant
                start <= i <= self.recent.len(),
                recent@ == self.recent@.subrange(start as int, i as int),
            decreases self.recent.len() - i,
        {
            recent.push(self.recent[i]);
            i += 1;
            assert(recent@ =~= self.recent@.subrange(start as int, i as int));
        }
        recent.push(id.hash);
        proof {
            if start == 0 {
                assert(self.recent@.subrange(0, self.recent.len() as int) =~= self.recent@);
            } else {
                assert(self.recent@.subrange(1, self.recent.len() as int)
                    =~= self.recent@.drop_first());
            }
            assert(recent@ =~= remembered(self.recent@, self.capacity as nat, id.hash));
        }
        self.recent = recent;
    }
}

impl Default for SeenFingerprints {
    /// An empty set of the default capacity.
    fn default() -> (set: SeenFingerprints)
        ensures
            set@ == Seq::<u64>::empty(),
            set.limit() == DEFAULT_CAPACITY,
    {
        SeenFingerprints { recent: Vec::new(), capacity: DEFAULT_CAPACITY }
    }
}

/// What becomes of an inbound message.
#[derive(Debug, Clone, Copy, PartialEq, Eq, Structural)]
pub enum Verdict {
    /// Handed to the application.
    Delivered,
    /// Dropped: its fingerprint was seen before.
    Duplicate,
    /// Dropped: it failed validation.
    Rejected,
}

/// The verdict on a message with fingerprint `hash`, where `acceptable` says
/// whether it passed validation. Validation comes first.
pub open spec fn verdict_for(seen: Seq<u64>, acceptable: bool, hash: u64) -> Verdict {
    if !acceptable {
        Verdict::Rejected
    } else if seen.contains(hash) {
        Verdict::Duplicate
    } else {
        Verdict::Delivered
    }
}

/// The fingerprints kept once the message is dealt with: one that failed
/// validation leaves none.
pub open spec fn seen_after(seen: Seq<u64>, capacity: nat, acceptable: bool, hash: u64) -> Seq<
    u64,
> {
    if acceptable {
        remembered(seen, capacity, hash)
    } else {
        seen
    }
}

/// A message is delivered if and only if it passed validation and its
/// fingerprint was not seen before: never twice, never unchecked.
pub proof fn lemma_delivered_exactly_when_new_and_valid(
    seen: Seq<u64>,
    acceptable: bool,
    hash: u64,
)
    ensures
        verdict_for(seen, acceptable, hash) == Verdict::Delivered <==> acceptable
            && !seen.contains(hash),
{
}

/// Right after a message was accepted, a second copy of its payload is a
/// duplicate, whoever hands it over: of two copies in a row exactly one is
/// delivered.
pub proof fn lemma_second_copy_is_dropped(seen: Seq<u64>, capacity: nat, hash: u64)
    requires
        is_seen_set(seen, capacity),
    ensures
        verdict_for(seen_after(seen, capacity, true, hash), true, hash) == Verdict::Duplicate,
{
    lemma_remembered_is_seen_set(seen, capacity, hash);
}

/// A delivered message stays known while fewer than `capacity` new ones
/// follow it: with room for two, one other message in between does not make
/// the set forget it.
pub proof fn lemma_copy_after_another_is_dropped(
    seen: Seq<u64>,
    capacity: nat,
    hash: u64,
    other: u64,
)
    requires
        is_seen_set(seen, capacity),
        capacity >= 2,
        verdict_for(seen, true, hash) == Verdict::Delivered,
    ensures
        verdict_for(
            seen_after(seen_after(seen, capacity, true, hash), capacity, true, other),
            true,
            hash,
        ) == Verdict::Duplicate,
{
    lemma_remembered_is_seen_set(seen, capacity, hash);
    let first = remembered(seen, capacity, hash);
    lemma_remembered_is_seen_set(first, capacity, other);
    let second = remembered(first, capacity, other);
    if other != hash {
        assert(first.last() == hash);
        if first.contains(other) {
        } else if first.len() < capacity {
            assert(second[first.len() - 1] == hash);
        } else {
            assert(first.len() >= 2);
            assert(second[first.len() - 2] == first[first.len() - 1]);
        }
    }
}

/// A message that fails validation leaves no trace: the set is unchanged, so
/// a later good copy of the same payload gets the verdict it would have got
/// without the bad one.
pub proof fn lemma_rejected_leaves_no_trace(seen: Seq<u64>, capacity: nat, hash: u64)
    ensures
        verdict_for(seen, false, hash) == Verdict::Rejected,
        seen_after(seen, capacity, false, hash) == seen,
        verdict_for(seen_after(seen, capacity, false, hash), true, hash) == verdict_for(
            seen,
            true,
            hash,
        ),
{
}

/// A message that arrived from the network, with what the network stack
/// found out about it.
#[derive(Debug, Clone, PartialEq, Eq)]
pub struct Inbound {
    /// The peer that handed the message over.
    pub propagation_source: NodeIdentifier,
    /// The message.
    pub message: Message,
    /// Whether the message carries a signature that matches its sender.
    pub signature_valid: bool,
}

/// Why a payload was not sent.
#[derive(Debug, Clone, Copy, PartialEq, Eq, Structural)]
pub enum PublishError {
    /// No reachable peer has joined the topic.
    NoPeers,
    /// The payload could not be signed.
    SignatureFailure,
    /// The same payload was sent or received a moment ago.
    Duplicate,
    /// The network stack refused the message for another reason.
    Refused,
}

/// The names in a list of topics.
pub open spec fn topic_names(topics: Seq<String>) -> Seq<Seq<char>> {
    topics.map_values(|topic: String| topic@)
}

/// Whether an inbound message passes validation: its signature holds and
/// the node has joined its topic.
pub open spec fn acceptable(topics: Seq<Seq<char>>, inbound: Inbound) -> bool {
    inbound.signature_valid && topics.contains(inbound.message.topic@)
}

/// The overlay messaging controller of one node.
#[derive(Debug)]
pub struct Overlay {
    seen: SeenFingerprints,
    topics: Vec<String>,
}

impl Overlay {
    /// No topic is joined twice. Every controller made by [`Overlay::new`]
    /// and changed through the methods below is well formed.
    pub closed spec fn wf(&self) -> bool {
        topic_names(self.topics@).no_duplicates()
    }

    /// The remembered fingerprints, oldest first.
    pub closed spec fn seen(&self) -> Seq<u64> {
        self.seen@
    }

    /// How many fingerprints are remembered at most.
    pub closed spec fn limit(&self) -> nat {
        self.seen.limit()
    }

    /// The topics joined, in the order of joining.
    pub closed spec fn topics(&self) -> Seq<Seq<char>> {
        topic_names(self.topics@)
    }

    /// A controller that has joined no topic and remembers what `seen` does.
    pub fn new(seen: SeenFingerprints) -> (overlay: Overlay)
        ensures
            overlay.wf(),
            overlay.seen() == seen@,
            overlay.limit() == seen.limit(),
            overlay.topics() == Seq::<Seq<char>>::empty(),
    {
        let overlay = Overlay { seen, topics: Vec::new() };
        assert(overlay.topics() =~= Seq::<Seq<char>>::empty());
        overlay
    }

    /// Whether the node has joined `topic`.
    pub fn is_subscribed(&self, topic: &str) -> (joined: bool)
        ensures
            joined == self.topics().contains(topic@),
    {
        let mut i: usize = 0;
        while i < self.topics.len()
            invariant
                i <= self.topics.len(),
                forall|j: int| 0 <= j < i ==> topic_names(self.topics@)[j] != topic@,
            decreases self.topics.len() - i,
        {
            if same_text(self.topics[i].as_str(), topic) {
                assert(topic_names(self.topics@)[i as int] == topic@);
                return true;
            }
            assert(topic_names(self.topics@)[i as int] == self.topics@[i as int]@);
            i += 1;
        }
        false
    }

    /// Joins `topic`. Joining a topic twice is the same as joining it once;
    /// the answer says whether the topic is new.
    pub fn subscribe(&mut self, topic: &str) -> (newly: bool)
        requires
            old(self).wf(),
        ensures
            final(self).wf(),
            newly == !old(self).topics().contains(topic@),
            final(self).topics() == if newly {
                old(self).topics().push(topic@)
            } else {
                old(self).topics()
            },
            final(self).topics().contains(topic@),
            final(self).seen() == old(self).seen(),
            final(self).limit() == old(self).limit(),
    {
        if self.is_subscribed(topic) {
            return false;
        }
        let ghost before = self.topics@;
        let name = String::from_str(topic);
        proof {
            let after = before.push(name);
            assert(topic_names(after) =~= topic_names(before).push(topic@));
            assert(topic_names(after)[before.len() as int] == topic@);
        }
        self.topics.push(name);
        true
    }

    /// Decides what becomes of an inbound message, and remembers the
    /// fingerprint of one that passed validation.
    pub fn on_message_received(&mut self, inbound: &Inbound) -> (verdict: Verdict)
        requires
            old(self).wf(),
        ensures
            final(self).wf(),
            verdict == verdict_for(
                old(self).seen(),
                acceptable(old(self).topics(), *inbound),
                payload_hash(inbound.message.data@),
            ),
            final(self).seen() == seen_after(
                old(self).seen(),
                old(self).limit(),
                acceptable(old(self).topics(), *inbound),
                payload_hash(inbound.message.data@),
            ),
            final(self).topics() == old(self).topics(),
            final(self).limit() == old(self).limit(),
    {
        if !inbound.signature_valid || !self.is_subscribed(inbound.message.topic.as_str()) {
            return Verdict::Rejected;
        }
        let id = message_id(&inbound.message);
        if self.seen.contains(id) {
            Verdict::Duplicate
        } else {
            self.seen.remember(id);
            Verdict::Delivered
        }
    }

    /// Decides whether a payload may be handed to the network: not one whose
    /// fingerprint is remembered. Nothing is remembered yet; that is done by
    /// [`Overlay::on_published`] once the network stack has taken it.
    pub fn publish(&self, payload: &Vec<u8>) -> (decided: Result<MessageId, PublishError>)
        ensures
            match decided {
                Ok(id) => id.hash == payload_hash(payload@) && !self.seen().contains(id.hash),
                Err(e) => e == PublishError::Duplicate && self.seen().contains(
                    payload_hash(payload@),
                ),
            },
    {
        let id = fingerprint(payload);
        if self.seen.contains(id) {
            Err(PublishError::Duplicate)
        } else {
            Ok(id)
        }
    }

    /// Records how the network stack answered a publish request: a payload
    /// that was sent is remembered, so that its echo is not delivered; one
    /// that was not sent may be tried again.
    pub fn on_published(&mut self, id: MessageId, sent: bool)
        requires
            old(self).wf(),
        ensures
            final(self).wf(),
            final(self).seen() == seen_after(old(self).seen(), old(self).limit(), sent, id.hash),
            final(self).topics() == old(self).topics(),
            final(self).limit() == old(self).limit(),
    {
        if sent {
            self.seen.remember(id);
        }
    }
}

/// Joining a topic that is already joined changes nothing, so joining twice
/// is the same as joining once.
pub proof fn lemma_subscribe_is_idempotent(topics: Seq<Seq<char>>, topic: Seq<char>)
    ensures
        topics_after_subscribe(topics_after_subscribe(topics, topic), topic)
            == topics_after_subscribe(topics, topic),
{
    let once = topics_after_subscribe(topics, topic);
    if !topics.contains(topic) {
        assert(once[topics.len() as int] == topic);
    }
}

/// The topics joined after a request to join `topic`.
pub open spec fn topics_after_subscribe(topics: Seq<Seq<char>>, topic: Seq<char>) -> Seq<
    Seq<char>,
> {
    if topics.contains(topic) {
        topics
    } else {
        topics.push(topic)
    }
}

} // verus!
