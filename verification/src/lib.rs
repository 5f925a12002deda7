//! Decision logic of a bridge between one Ethereum-style publish/subscribe RPC
//! endpoint and an address-routed message bus.

pub mod bus;
pub mod dispatcher;
pub mod endpoint;
pub mod eth;
pub mod registry;
pub mod relay;
pub mod wire;
