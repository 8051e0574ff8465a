//! Core logic of a two-player (human vs. computer) memory-matching card game
//! on a fixed 52-cell grid: the board and selection state, the phase/turn
//! state machine, the match evaluator, and the CPU decision engine with its
//! imperfect memory of previously seen cards.

pub mod components;
pub mod cpu_ai;
pub mod events;
pub mod game_state;
pub mod hanafuda_cards;
pub mod playing_cards;
mod rng;
pub mod turn_logic;
