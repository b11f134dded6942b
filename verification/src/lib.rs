//! The verified core of a small constellation of food-safety services: a
//! product catalogue, a user profile service and an allergy checker.
//!
//! The core owns no durable state and does no input or output. It holds the
//! rules: how a read goes through the cache and what a write invalidates
//! (`cache`), how a product's ingredients and a user's allergens and diets
//! give a safety verdict (`conflict`, `checker`), which products are
//! recommended in place of another (`recommend`), what the catalogue and the
//! profile service accept and answer (`catalog`, `profile`), and how failures
//! are answered (`errors`). The stores and peers are asked by the caller, who
//! hands their answers in as plain values (`store`, `gateway`).
//!
//! A request that needs a store or a peer is one function from the state of
//! the request and the answer that came in to the state that follows and
//! what is to be done next. It begins in the state `Received` with the event
//! `Begin` and ends with the action `Reply`. The contract of such a function
//! fixes every step; a law beside it states what the request as a whole
//! answers, whatever the stores and peers hold.

pub mod cache;
pub mod catalog;
pub mod checker;
pub mod config;
pub mod conflict;
pub mod errors;
pub mod gateway;
pub mod ids;
pub mod names;
pub mod profile;
pub mod recommend;
pub mod store;
pub mod text;
