//! A lightweight, headless Threema client library.
//!
//! The client is an additional device in an existing multi-device group. It receives and sends
//! plain-text messages in one-to-one conversations. Messages arrive either directly from the chat
//! server or reflected by another linked device. A message that is sent is first announced to the
//! other devices, then handed to the chat server, and reported as sent once acknowledged.
//!
//! The library decides; it performs no input or output itself and does not encrypt. Everything
//! that it knows of the world is handed to it, and everything that it wants done it returns:
//!
//! - [`client`] goes from the configuration to the connections,
//! - [`csp`] and [`d2m`] drive the connections to the chat server and to the mediator,
//! - [`e2e`] is the message flow between them, in terms of [`flow`],
//! - [`d2d`] handles what other devices reflect, [`conversation`] what the chat server delivers,
//! - [`store`] keeps the contacts and the used nonces,
//! - [`cli`] is the text of the command line.
//!
//! What holds across operations is stated and proved in [`store_laws`], [`d2d_laws`], [`csp_laws`],
//! [`d2m_laws`], [`e2e_steps`], [`e2e_laws`] and [`e2e_runs`].

pub mod cli;
pub mod client;
pub mod command;
pub mod contact;
pub mod conversation;
pub mod csp;
pub mod csp_laws;
pub mod d2d;
pub mod d2d_laws;
pub mod d2m;
pub mod d2m_laws;
pub mod e2e;
pub mod e2e_laws;
pub mod e2e_runs;
pub mod e2e_steps;
pub mod event;
pub mod flow;
pub mod hex;
pub mod model;
pub mod store;
pub mod store_laws;
pub mod table;
pub mod text;

pub use client::{Config, run};
pub use command::{Command, Recipient};
pub use event::{Conversation, Event, TextMessage};
