//! Service-to-service identity against an OAuth2 / OIDC provider.
//!
//! The crate does two things for an application. It holds the bearer token
//! that the provider issues under the client-credentials grant, and it checks
//! bearer tokens that others present: the signing key is looked up in the
//! provider's published key set, the signature is checked against it, and the
//! claims are held against the checks the caller asks for.
//!
//! Nothing here touches the network. A caller performs the two HTTP exchanges
//! and hands each reply over as a [`transport::HttpReply`].

pub mod error;
pub mod transport;
pub mod endpoint;
pub mod claims;
pub mod json;
pub mod keyset;
pub mod token;
pub mod client;
pub mod authorization;

pub use client::Auth0Client;
