//! Messaging core of a peer-to-peer chat node: the ordered message history,
//! the chat topic, external-address resolution, the routing-table upkeep,
//! the node's stored identity, the decisions of the swarm event loop, and
//! the file-tree helpers of the editor around it.
pub mod address;
pub mod credentials;
pub mod files;
pub mod message;
pub mod node;
pub mod routing;
pub mod topic;
