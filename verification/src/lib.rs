//! Decision logic of a peer-to-peer node: who the node is, how peers are
//! addressed, which overlay messages reach the application, and what the node
//! does in answer to each event of its single event loop.
//!
//! Nothing here touches a socket or a clock. The program around this library
//! drives the network stack, hands every event to the node and carries out
//! the actions that come back.
pub mod node;
pub mod notice;
pub mod overlay;
pub mod routing;
pub mod utils;
