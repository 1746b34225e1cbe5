//! A runtime core for multiplayer game sessions driven by an external,
//! irregular clock: a verified lifecycle state machine, a polling timer
//! scheduler that turns elapsed time into discrete callback firings, a
//! validated rule bundle that injects game-specific behavior, and small
//! pub/sub primitives around them.

pub mod bus;
pub mod delegate;
pub mod game;
pub mod game_item;
pub mod game_rule;
pub mod game_scheduler;
pub mod game_tokens;
pub mod player;
pub mod poker;
pub mod timer;
pub mod user;
