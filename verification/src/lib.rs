//! Client-side logic for a remote chat completion service: message values,
//! a per-conversation history store, and the decisions taken around each
//! network exchange. The network exchange itself is left to the caller.

pub mod calls;
pub mod client;
pub mod error;
pub mod history;
pub mod message;
pub mod request;
pub mod response;
pub mod stream;
pub mod transport;
