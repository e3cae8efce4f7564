//! Noughts and crosses for two players at one console.
//!
//! [`board::TicTacToeBoard`] is the 3×3 grid: it takes one mark at a time,
//! refuses what is no move, and says after each accepted move whether the
//! game goes on, is won or is drawn. [`game::Game`] seats two players at a
//! board and takes their moves as lines of text.
//!
//! What each function computes is stated over a few plain models: a board is
//! the sequence of its nine cells ([`grid`]), a line of input the sequence of
//! its characters ([`text`], [`number`], [`input`]). [`rules`] proves from
//! these models what holds of every move and of every game.
#![allow(non_snake_case)]

pub mod board;
pub mod cell;
pub mod error;
pub mod game;
pub mod grid;
pub mod input;
pub mod number;
pub mod rules;
pub mod state;
pub mod text;
