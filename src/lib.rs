//! A fishing game engine: rod composition, fish sampling, a rotating shop,
//! per-user ledgers and the resolution of a cast.

pub mod rarity;
mod draw;
pub mod rods;
pub mod fish;
pub mod ledger;
pub mod config;
pub mod engine;
pub mod shop;
