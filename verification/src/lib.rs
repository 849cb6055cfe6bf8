//! The decisions of a peer-to-peer node on which models are offered, requested and generated.
//!
//! A [`Node`] takes one event at a time and says what is to be done about it; the program around
//! it does that and brings the replies. Provers and verifiers are nodes alike: a verifier
//! broadcasts the resources that a model needs, a prover whose resources are available offers to
//! generate it, the verifier answers with the model's configuration, and the prover generates the
//! model.

pub mod base58;
pub mod command;
pub mod content;
pub mod decimal;
pub mod event;
pub mod generation;
pub mod laws;
pub mod message;
pub mod node;
pub mod notation;
pub mod notice;
pub mod peer;
pub mod resources;

pub use content::{message_id, ByteOrder};
pub use generation::downloadModel;
pub use message::{ListMode, ListRequest, ListResponse, ModelReq, ModelRes};
pub use node::Node;
pub use peer::Peer;
pub use resources::resources_available_for_request;
