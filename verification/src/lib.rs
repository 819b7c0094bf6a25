//! Backend logic of a travel-planning service: accounts with hashed passwords,
//! signed bearer tokens with an expiry, and places owned by users.
//!
//! Nothing here touches the network or a database. Each request handler is a
//! function from the request and from what the store answered to the reply that
//! goes back, and `store` holds the table of places in memory, which says what
//! the handlers expect of a store.

pub mod diesel_types;
pub mod handlers;
pub mod http;
pub mod models;
pub mod store;
pub mod utils;
