//! Command interpretation, request planning and reply rendering for a chat
//! bot that answers questions about anime titles.
//!
//! The library decides and renders; it sends nothing and stores nothing.
//! Its caller hands it the text of a message, carries out the steps that
//! come back, and hands it what the metadata service answered.
//!
//! - [`command`] classifies the text of a message as one command.
//! - [`discord_handler`] turns a command into steps, and an answer of the
//!   service into the payload to send.
//! - [`jikan_api`] holds the records of the service, the requests that ask
//!   for them, and the rule that turns an answer into a result.
//! - [`render`] renders records as cards.
//! - [`card`] is the outgoing message, as a card or as plain text.
//! - [`query_log`] keeps the searches of each user.
//! - [`text`] holds the character-level helpers that the others share.

pub mod text;
pub mod jikan_api;
pub mod card;
pub mod render;
pub mod command;
pub mod discord_handler;
pub mod query_log;
