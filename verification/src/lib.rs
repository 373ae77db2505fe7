//! State and protocol core of a Battlesnake agent: the grid and entity model
//! of one game turn, the catalog of cosmetic names, the message envelopes, and
//! the registry of running game sessions.

pub mod error;
pub mod text;
pub mod grid;
pub mod customization;
pub mod rules;
pub mod snake;
pub mod board;
pub mod session;
pub mod store;
pub mod registry;
pub mod request;
pub mod response;
