//! Request/response correlation for a JSON-RPC 2.0 client.
//!
//! The crate builds well-formed requests (method calls, notifications and
//! batches), hands out the identifiers that link a call to its response, and
//! checks that what comes back fits what was sent. It never touches the
//! network: an [`client::HttpClient`] starts an exchange and returns the
//! envelope to send together with what is needed to judge the reply once the
//! transport has delivered it.
//!
//! Every function carries a contract over the mathematical values of its
//! arguments (the views of the types), and Verus proves each body against
//! it. The proof functions state what holds across calls: that identifiers
//! do not repeat before the counter has gone round, that a batch is judged
//! without regard to the order of its answers, and that the JSON object of
//! a request reads back as that request.

pub mod client;
pub mod error;
pub mod ids;
pub mod json;
pub mod request;
pub mod response;
pub mod validate;
pub mod wire;
