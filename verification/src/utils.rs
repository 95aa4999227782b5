//! Building blocks shared by the controllers: text scanning, the base-58
//! codec, peer identities and message fingerprints.
pub mod base58;
pub mod msg;
pub mod peer;
pub mod text;
