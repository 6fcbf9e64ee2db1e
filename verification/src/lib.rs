//! Verified core of a two-player chess match server.
//!
//! The server pairs waiting players, lets each of them connect, and keeps
//! the game of a pair in step while moves are exchanged.  This library holds
//! every decision of the server as a function on plain values, with the
//! contract that Verus proves of it; talking to sockets, to the shared store
//! and to the identity provider is left to the program around it.
//!
//! - [`matchmaking`], [`session`], [`lobby`]: who waits, who is paired, how
//!   a game begins.
//! - [`gateway`], [`pace`]: the life of one connection, and the rests of
//!   the tasks that wait.
//! - [`envelope`], [`engine`]: the requests of a client and what they do to
//!   a game.
//! - [`notify`]: what the two connections of a game tell each other and
//!   their clients.
//! - [`chess`], [`position`], [`rules`]: squares, moves and positions, and
//!   the chess engine behind them.
//! - [`store`], [`text`]: how records are written to the shared store and
//!   read back.
//! - [`auth`], [`certificate`], [`http`]: credentials and the answers on the
//!   HTTP routes.

pub mod auth;
pub mod certificate;
pub mod chess;
pub mod clock;
pub mod engine;
pub mod envelope;
pub mod gateway;
pub mod http;
pub mod lobby;
pub mod matchmaking;
pub mod model;
pub mod notify;
pub mod pace;
pub mod position;
pub mod rules;
pub mod session;
pub mod store;
pub mod text;
