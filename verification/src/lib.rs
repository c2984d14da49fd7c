//! A session engine for a three-guess number game.
//!
//! A client asks for a game, the engine hides a target between one and ten,
//! and the client has three guesses to find it. [`engine::Engine`] owns every
//! game and answers one request at a time.

pub mod engine;
