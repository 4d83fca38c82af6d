//! Decision core of a chat bot that keeps a registry of game-world coordinates:
//! command dispatch, the coordinate store, the interaction gateway's ordering of
//! checks, and the text the bot renders.

pub mod commands;
pub mod coordinates;
pub mod gateway;
pub mod interaction;
pub mod response;
pub mod store;
pub mod text;
