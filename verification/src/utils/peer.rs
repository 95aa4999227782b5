//! Node identifiers and the textual addresses that carry them.
//!
//! A peer announces itself as `<network-address>/p2p/<identifier>`, the
//! identifier written in base 58. [`parse_peer_address`] takes such a text
//! apart and [`format_peer_address`] puts it together.
use vstd::prelude::*;
use vstd::string::*;
use crate::utils::base58::{base58_decoded, base58_encoded, is_base58_char, is_base58_text};
use crate::utils::base58;
use crate::utils::text::{find_last, is_last_occurrence, never_occurs, occurs_at, to_chars};

verus! {

/// The canonical bytes of the identifier that `libp2p` reads from `data`:
/// `None` where it accepts no identifier there.
pub uninterp spec fn peer_id_bytes(data: Seq<u8>) -> Option<Seq<u8>>;

/// `bytes` are the canonical bytes of a node identifier: read as an
/// identifier, they give themselves.
pub open spec fn is_identifier(bytes: Seq<u8>) -> bool {
    peer_id_bytes(bytes) == Some(bytes)
}

#[verifier::external_type_specification]
#[verifier::external_body]
pub struct ExPeerIdParseError(libp2p::identity::ParseError);

/// Calls `PeerId::from_bytes` and, on success, `PeerId::to_bytes`.
///
/// Trusted: whether `data` holds an identifier, and the identifier's
/// canonical bytes, depend on `data` alone; canonical bytes are themselves
/// read as the same identifier.
#[verifier::external_body]
fn peer_id_from_bytes(data: &Vec<u8>) -> (parsed: Result<Vec<u8>, libp2p::identity::ParseError>)
    ensures
        match parsed {
            Ok(bytes) => peer_id_bytes(data@) == Some(bytes@) && is_identifier(bytes@),
            Err(_) => peer_id_bytes(data@) is None,
        },
{
    libp2p::PeerId::from_bytes(data).map(|id| id.to_bytes())
}

/// Why a text is no peer address.
#[derive(Debug, Clone, Copy, PartialEq, Eq, Structural)]
pub enum MalformedAddress {
    /// The text holds no `/p2p/`.
    MissingDelimiter,
    /// What follows the last `/p2p/` is not base 58.
    InvalidEncoding,
    /// The decoded bytes are no node identifier.
    InvalidIdentifier,
}

/// Names a participant of the network: the multihash of its public key.
#[derive(Debug, PartialEq, Eq)]
pub struct NodeIdentifier {
    bytes: Vec<u8>,
}

impl View for NodeIdentifier {
    type V = Seq<u8>;

    closed spec fn view(&self) -> Seq<u8> {
        self.bytes@
    }
}

impl Clone for NodeIdentifier {
    fn clone(&self) -> (copy: Self)
        ensures
            copy@ == self@,
    {
        proof {
            use_type_invariant(self);
        }
        NodeIdentifier { bytes: self.bytes.clone() }
    }
}

impl NodeIdentifier {
    #[verifier::type_invariant]
    spec fn canonical(&self) -> bool {
        is_identifier(self.bytes@)
    }

    /// Reads an identifier from its binary form. The identifier holds the
    /// canonical bytes, which differ from `data` only where `data` spells a
    /// length or a code in more bytes than needed.
    pub fn from_bytes(data: &Vec<u8>) -> (parsed: Result<NodeIdentifier, MalformedAddress>)
        ensures
            match parsed {
                Ok(id) => peer_id_bytes(data@) == Some(id@) && is_identifier(id@),
                Err(e) => peer_id_bytes(data@) is None && e == MalformedAddress::InvalidIdentifier,
            },
    {
        match peer_id_from_bytes(data) {
            Ok(bytes) => Ok(NodeIdentifier { bytes }),
            Err(_) => Err(MalformedAddress::InvalidIdentifier),
        }
    }

    /// The canonical bytes.
    pub fn as_bytes(&self) -> (bytes: &Vec<u8>)
        ensures
            bytes@ == self@,
            is_identifier(self@),
    {
        proof {
            use_type_invariant(self);
        }
        &self.bytes
    }

    /// The identifier in base 58, as peers print it.
    pub fn to_base58(&self) -> (text: String)
        ensures
            text@ == base58_encoded(self@),
            is_base58_text(text@),
            base58_decoded(text@) == Some(self@),
    {
        base58::encode(&self.bytes)
    }

    /// Whether two identifiers name the same node.
    pub fn same_as(&self, other: &NodeIdentifier) -> (same: bool)
        ensures
            same == (self@ == other@),
    {
        let same = self.bytes == other.bytes;
        proof {
            if same {
                assert(self.bytes@ =~= other.bytes@);
            }
        }
        same
    }
}

/// A peer's self-announced address, taken apart.
#[derive(Debug, PartialEq, Eq)]
pub struct PeerAddress {
    /// Whom the address names.
    pub identifier: NodeIdentifier,
    /// Where to reach them: the text in front of the last `/p2p/`.
    pub address: String,
}

/// The text that parts the network address from the identifier: `/p2p/`.
pub open spec fn delimiter() -> Seq<char> {
    seq!['/', 'p', '2', 'p', '/']
}

/// The position of the last `/p2p/` in `text`, where there is one.
pub open spec fn last_delimiter(text: Seq<char>) -> int {
    choose|at: int| is_last_occurrence(text, delimiter(), at)
}

/// What a peer address parses to: the identifier's canonical bytes and the
/// network address, or the reason why it is none.
pub open spec fn parsed_address(text: Seq<char>) -> Result<(Seq<u8>, Seq<char>), MalformedAddress> {
    if never_occurs(text, delimiter()) {
        Err(MalformedAddress::MissingDelimiter)
    } else {
        let at = last_delimiter(text);
        match base58_decoded(text.subrange(at + delimiter().len(), text.len() as int)) {
            None => Err(MalformedAddress::InvalidEncoding),
            Some(raw) => match peer_id_bytes(raw) {
                None => Err(MalformedAddress::InvalidIdentifier),
                Some(id) => Ok((id, text.subrange(0, at))),
            },
        }
    }
}

/// The text that announces `identifier` at `address`.
pub open spec fn formatted_address(address: Seq<char>, identifier: Seq<u8>) -> Seq<char> {
    address + delimiter() + base58_encoded(identifier)
}

/// A text has at most one last occurrence of the delimiter.
pub proof fn lemma_last_delimiter_is_unique(text: Seq<char>, at: int)
    requires
        is_last_occurrence(text, delimiter(), at),
    ensures
        last_delimiter(text) == at,
        !never_occurs(text, delimiter()),
{
    let chosen = last_delimiter(text);
    assert(is_last_occurrence(text, delimiter(), chosen));
    if chosen < at {
        assert(!occurs_at(text, delimiter(), at));
    } else if at < chosen {
        assert(!occurs_at(text, delimiter(), chosen));
    }
}

/// Behind an address and the delimiter, a text without `/` leaves the
/// delimiter that was put in as the last one.
pub proof fn lemma_delimiter_before_base58(address: Seq<char>, tail: Seq<char>)
    requires
        is_base58_text(tail),
    ensures
        is_last_occurrence(address + delimiter() + tail, delimiter(), address.len() as int),
{
    let text = address + delimiter() + tail;
    let at = address.len() as int;
    assert(text.subrange(at, at + delimiter().len()) =~= delimiter());
    assert forall|later: int| at < later implies !occurs_at(text, delimiter(), later) by {
        if occurs_at(text, delimiter(), later) {
            let window = text.subrange(later, later + delimiter().len());
            assert(window[4] == '/');
            assert(text[later + 4] == '/');
            assert(text[later + 4] == tail[later + 4 - at - 5]);
            assert(is_base58_char(tail[later + 4 - at - 5]));
        }
    }
}

/// Parsing undoes formatting: a formatted address parses to the identifier
/// and the network address it was made of, whenever the identifier's text is
/// base 58 that decodes to the identifier.
pub proof fn lemma_parse_undoes_format(address: Seq<char>, identifier: Seq<u8>)
    requires
        is_identifier(identifier),
        is_base58_text(base58_encoded(identifier)),
        base58_decoded(base58_encoded(identifier)) == Some(identifier),
    ensures
        parsed_address(formatted_address(address, identifier)) == Ok::<
            (Seq<u8>, Seq<char>),
            MalformedAddress,
        >((identifier, address)),
{
    let tail = base58_encoded(identifier);
    let text = formatted_address(address, identifier);
    let at = address.len() as int;
    lemma_delimiter_before_base58(address, tail);
    lemma_last_delimiter_is_unique(text, at);
    assert(text.subrange(at + delimiter().len(), text.len() as int) =~= tail);
    assert(text.subrange(0, at) =~= address);
}

/// The delimiter as characters.
fn delimiter_chars() -> (chars: Vec<char>)
    ensures
        chars@ == delimiter(),
{
    let mut chars: Vec<char> = Vec::new();
    chars.push('/');
    chars.push('p');
    chars.push('2');
    chars.push('p');
    chars.push('/');
    assert(chars@ =~= delimiter());
    chars
}

/// Takes a peer's self-announced address apart: the text behind the last
/// `/p2p/` is read as a base-58 node identifier, the text in front of it is
/// the network address.
pub fn parse_peer_address(text: &String) -> (parsed: Result<PeerAddress, MalformedAddress>)
    ensures
        match parsed {
            Ok(peer) => parsed_address(text@) == Ok::<(Seq<u8>, Seq<char>), MalformedAddress>(
                (peer.identifier@, peer.address@),
            ),
            Err(fault) => parsed_address(text@) == Err::<(Seq<u8>, Seq<char>), MalformedAddress>(
                fault,
            ),
        },
{
    let whole = text.as_str();
    let chars = to_chars(whole);
    let needle = delimiter_chars();
    let at = match find_last(&chars, &needle) {
        None => { return Err(MalformedAddress::MissingDelimiter); },
        Some(at) => at,
    };
    proof {
        lemma_last_delimiter_is_unique(text@, at as int);
        assert(occurs_at(chars@, needle@, at as int));
        assert(at + needle.len() <= chars.len());
    }
    let tail = whole.substring_char(at + needle.len(), chars.len());
    let raw = match base58::decode(tail) {
        Err(_) => { return Err(MalformedAddress::InvalidEncoding); },
        Ok(raw) => raw,
    };
    let identifier = match NodeIdentifier::from_bytes(&raw) {
        Err(_) => { return Err(MalformedAddress::InvalidIdentifier); },
        Ok(identifier) => identifier,
    };
    let address = String::from_str(whole.substring_char(0, at));
    Ok(PeerAddress { identifier, address })
}

/// The node identifier that a peer's self-announced address ends in.
pub fn parse_peer_id(addr: &String) -> (parsed: Result<NodeIdentifier, MalformedAddress>)
    ensures
        match parsed {
            Ok(id) => parsed_address(addr@) matches Ok(parts) && parts.0 == id@,
            Err(fault) => parsed_address(addr@) == Err::<(Seq<u8>, Seq<char>), MalformedAddress>(
                fault,
            ),
        },
{
    match parse_peer_address(addr) {
        Ok(peer) => Ok(peer.identifier),
        Err(fault) => Err(fault),
    }
}

/// The text under which the node `identifier` announces itself at `address`.
/// [`parse_peer_address`] gives both back.
pub fn format_peer_address(address: &str, identifier: &NodeIdentifier) -> (text: String)
    ensures
        text@ == formatted_address(address@, identifier@),
        parsed_address(text@) == Ok::<(Seq<u8>, Seq<char>), MalformedAddress>(
            (identifier@, address@),
        ),
{
    let encoded = identifier.to_base58();
    let mut text = String::from_str(address);
    text.append("/p2p/");
    text.append(encoded.as_str());
    proof {
        use_type_invariant(identifier);
        reveal_strlit("/p2p/");
        assert("/p2p/"@ =~= delimiter());
        lemma_parse_undoes_format(address@, identifier@);
    }
    text
}

/// The Keccak-256 digest of `data`, as the `sha3` crate computes it.
pub uninterp spec fn keccak256_digest(data: Seq<u8>) -> Seq<u8>;

/// The canonical identifier bytes of the Ed25519 key pair that `libp2p`
/// makes of the 32 secret bytes `secret`.
pub uninterp spec fn ed25519_identifier(secret: Seq<u8>) -> Seq<u8>;

/// Length of an Ed25519 secret, and of a Keccak-256 digest.
pub const SECRET_LEN: usize = 32;

/// Calls `Keccak256::digest`.
///
/// Trusted: the digest is a function of the data alone and has 32 bytes.
#[verifier::external_body]
fn keccak256(data: &[u8]) -> (digest: Vec<u8>)
    ensures
        digest@ == keccak256_digest(data@),
        digest@.len() == SECRET_LEN,
{
    <sha3::Keccak256 as sha3::Digest>::digest(data).to_vec()
}

#[verifier::external_type_specification]
#[verifier::external_body]
pub struct ExKeyDecodingError(libp2p::identity::DecodingError);

/// Calls `Keypair::ed25519_from_bytes` on a copy of `secret` and turns the
/// pair into its identifier's bytes (`public().to_peer_id().to_bytes()`).
///
/// Trusted: the call succeeds exactly on 32 bytes; the identifier depends on
/// the secret alone and its bytes are canonical.
#[verifier::external_body]
fn ed25519_peer_id(secret: &Vec<u8>) -> (derived: Result<Vec<u8>, libp2p::identity::DecodingError>)
    ensures
        derived is Ok <==> secret@.len() == SECRET_LEN,
        derived matches Ok(id) ==> id@ == ed25519_identifier(secret@) && is_identifier(id@),
{
    libp2p::identity::Keypair::ed25519_from_bytes(secret.clone()).map(
        |pair| pair.public().to_peer_id().to_bytes(),
    )
}

/// Calls `ed25519::SecretKey::generate`, which draws the secret from the
/// operating system's random source.
///
/// Trusted: the secret has 32 bytes. Nothing else holds of every outcome.
#[verifier::external_body]
fn random_secret() -> (secret: Vec<u8>)
    ensures
        secret@.len() == SECRET_LEN,
{
    libp2p::identity::ed25519::SecretKey::generate().as_ref().to_vec()
}

/// Failure to make an identity.
#[derive(Debug, Clone, Copy, PartialEq, Eq, Structural)]
pub enum IdentityError {
    /// The bytes offered as a secret are no Ed25519 key material.
    InvalidSeedMaterial,
}

/// Who this node is: its Ed25519 secret and the identifier that follows from
/// it. Made once at startup and never changed.
#[derive(Debug)]
pub struct NodeIdentity {
    secret: Vec<u8>,
    identifier: NodeIdentifier,
}

impl NodeIdentity {
    #[verifier::type_invariant]
    spec fn consistent(&self) -> bool {
        &&& self.secret@.len() == SECRET_LEN
        &&& self.identifier@ == ed25519_identifier(self.secret@)
    }

    /// The 32 secret bytes.
    pub closed spec fn secret_bytes(&self) -> Seq<u8> {
        self.secret@
    }

    /// The identifier's canonical bytes.
    pub closed spec fn identifier_bytes(&self) -> Seq<u8> {
        self.identifier@
    }

    /// The secret key material, from which the key pair can be made again.
    pub fn secret(&self) -> (secret: &Vec<u8>)
        ensures
            secret@ == self.secret_bytes(),
            secret@.len() == SECRET_LEN,
    {
        proof {
            use_type_invariant(self);
        }
        &self.secret
    }

    /// The node's identifier.
    pub fn identifier(&self) -> (identifier: &NodeIdentifier)
        ensures
            identifier@ == self.identifier_bytes(),
            identifier@ == ed25519_identifier(self.secret_bytes()),
    {
        proof {
            use_type_invariant(self);
        }
        &self.identifier
    }
}

/// `identity` is the one that follows from `secret`.
pub open spec fn derived_from_secret(secret: Seq<u8>, identity: NodeIdentity) -> bool {
    &&& identity.secret_bytes() == secret
    &&& identity.identifier_bytes() == ed25519_identifier(secret)
}

/// `identity` is the one that follows from the seed text `seed`: its secret
/// is the Keccak-256 digest of the seed's UTF-8 bytes.
pub open spec fn derived_from_seed(seed: Seq<char>, identity: NodeIdentity) -> bool {
    derived_from_secret(keccak256_digest(vstd::utf8::encode_utf8(seed)), identity)
}

/// The identity whose secret key is `secret`. Anything but 32 bytes is
/// refused.
pub fn identity_from_secret(secret: Vec<u8>) -> (made: Result<NodeIdentity, IdentityError>)
    ensures
        made is Ok <==> secret@.len() == SECRET_LEN,
        made matches Ok(identity) ==> derived_from_secret(secret@, identity),
        made matches Err(e) ==> e == IdentityError::InvalidSeedMaterial,
{
    match ed25519_peer_id(&secret) {
        Ok(bytes) => {
            let identifier = NodeIdentifier { bytes };
            Ok(NodeIdentity { secret, identifier })
        },
        Err(_) => Err(IdentityError::InvalidSeedMaterial),
    }
}

/// The identity that follows from a seed text: the seed is hashed with
/// Keccak-256 and the digest is the Ed25519 secret. The same seed gives the
/// same identity, on every machine.
pub fn ed25519_from_seed(seed: &String) -> (made: Result<NodeIdentity, IdentityError>)
    ensures
        made matches Ok(identity) && derived_from_seed(seed@, identity),
{
    let digest = keccak256(seed.as_str().as_bytes());
    identity_from_secret(digest)
}

/// The node's identity at startup: derived from the seed where one is given,
/// drawn at random where none is.
pub fn derive_identity(seed: Option<&String>) -> (made: Result<NodeIdentity, IdentityError>)
    ensures
        made is Ok,
        seed matches Some(text) ==> made matches Ok(identity) && derived_from_seed(
            text@,
            identity,
        ),
{
    match seed {
        Some(text) => ed25519_from_seed(text),
        None => identity_from_secret(random_secret()),
    }
}

/// Two identities derived from the same seed have the same secret and the
/// same node identifier.
pub proof fn lemma_seeded_identity_is_deterministic(
    seed: Seq<char>,
    first: NodeIdentity,
    second: NodeIdentity,
)
    requires
        derived_from_seed(seed, first),
        derived_from_seed(seed, second),
    ensures
        first.identifier_bytes() == second.identifier_bytes(),
        first.secret_bytes() == second.secret_bytes(),
{
}

} // verus!
