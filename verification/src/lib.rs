//! Repository layer of a multi-tenant chat-bot configuration service.
//!
//! Every tenant ("channel") owns commands, quotes, trusts, aliases, social
//! links, service authorizations, a moderation configuration and per-user
//! offence counters.  The crate holds the rules that govern those records.
//!
//! * `structures`, `payloads`, `errors`, `config`: the entities, what
//!   callers hand in, and what they get back.
//! * `delta`, `hasher`, `text`, `stamps`: the counter delta grammar, the
//!   password hash, and small helpers.
//! * `store`, `keys`: records, filters, queries and replies, the language
//!   in which the repository talks to a document database.
//! * `model`: what a document database answers and how a query changes it.
//! * `machine`, `steps`, `outcome`: every operation as a conversation with
//!   the database, one query at a time, so that any database can be put
//!   behind it.
//! * `rules`: what every operation returns and changes, stated directly.
//! * `memory`, `handler`: a database in memory and the repository on it,
//!   proved to do what the rules say.
//! * `refinement`, `laws`, `invariants`: why the conversations come to what
//!   the rules say, and what follows from the rules.

pub mod config;
pub mod delta;
pub mod errors;
pub mod handler;
pub mod hasher;
pub mod invariants;
pub mod keys;
pub mod laws;
pub mod machine;
pub mod memory;
pub mod model;
pub mod outcome;
pub mod payloads;
pub mod refinement;
pub mod rules;
pub mod stamps;
pub mod steps;
pub mod store;
pub mod structures;
pub mod text;
