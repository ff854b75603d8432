//! Resource-handler core of a small HTTP service over two collections,
//! users and vehicles: a closed error taxonomy, the entity schemas and
//! their listing envelopes, a model of the relational store the handlers
//! rely on, and the handlers themselves as verified decision functions
//! from store outcomes to HTTP replies.

pub mod entities;
pub mod errors;
pub mod handlers;
pub mod reply;
pub mod store;
