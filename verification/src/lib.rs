//! A typed client surface for the Twitch Helix API and its companion
//! OAuth token-validation endpoint.
//!
//! Each supported operation is a request value under [`request`]; a request
//! knows how to render itself as an absolute URL with an exact, specified
//! text, and which HTTP method to use.  Decoded bodies are classified into
//! the response envelope under [`response`].  The network itself is left to
//! the host application: everything here is pure computation.

pub mod api_url;
pub mod auth;
pub mod lookup;
pub mod render;
pub mod request;
pub mod response;
pub mod timestamp;

pub use request::{HelixRequest, HttpMethod, OAuthRequest};
pub use response::{HelixResponse, OAuthResponse};
