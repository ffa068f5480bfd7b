//! A client library for the TradeStation brokerage API: the request, query and
//! order builders, the endpoint and query-string construction, the decision
//! logic of the HTTP and streaming layers, and the data model of the API.
pub mod text;
pub mod error;
pub use error::Error;
pub mod responses;
pub mod token;
pub use token::{Scope, Token};
pub mod client;
pub use client::{Client, ClientBuilder, ClientEnvironment};
pub mod accounting;
pub mod execution;
pub mod market_data;
pub mod orders;
