//! A relay from a game database's change feed to a chat channel.
//!
//! The change feed delivers, tick by tick, the rows that were inserted into a
//! handful of tables. Three of them are reference tables, which give claims,
//! empires and players their display names; two hold the facts to tell of,
//! chat messages and moderation actions. The library keeps the names, turns
//! each fact row into at most one notification, rules when the stream of
//! notifications ends, and decides what the consumer at the end of the queue
//! does with each notification.
//!
//! - [`batch`]: the rows of one tick.
//! - [`cache`]: a cache of display names, where the last insert wins.
//! - [`materializer`]: from ticks to notifications.
//! - [`message`]: the notifications and their texts.
//! - [`coordinator`]: the one-way shutdown of the pipeline, with the sentinel
//!   that is released once and last.
//! - [`sink`]: echo, delivery, and the stop at the sentinel.
//! - [`pipeline`]: what holds when the sink consumes the coordinator's stream.
//! - [`json`]: the body of a delivery.
//! - [`config`]: the operator's settings.
//! - [`glue`]: binding a callback to a channel.
//! - [`text`]: integers in decimal.
//!
//! The library does no input or output. Its caller receives the ticks, owns
//! the queue, writes the console lines and sends the payloads.

pub mod batch;
pub mod cache;
pub mod config;
pub mod coordinator;
pub mod glue;
pub mod json;
pub mod materializer;
pub mod message;
pub mod pipeline;
pub mod sink;
pub mod text;
