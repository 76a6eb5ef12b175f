//! Predicts the stock of the procedurally generated shops of a farming game from a world
//! seed, a platform and an in-game date, by replaying the game's own random draws.
//!
//! The game makes a shop's stock for a day from a random number generator that it seeds
//! with the world's seed and the date. Which generator that is depends on the platform, and
//! so does, for some shops, the order of draws and checks. A prediction is right only if
//! every draw is replayed exactly, so the two generators in [`prng`] and the arithmetic on
//! their draws in [`binary64`] are done in whole numbers and stated bit for bit.
//!
//! [`calendar`] takes dates apart. [`catalog`] holds the game's item tables, which the
//! shops only read. [`implementations`] holds one algorithm for each shop and for the
//! geodes, and [`components`] the window of days that a query looks at and the cells, heads
//! and notes of the table that it gives. [`configuration`] is the player's world, [`error`]
//! what can fail, and [`text`] the few operations on names that the tables need.

pub mod binary64;
pub mod calendar;
pub mod catalog;
pub mod components;
pub mod configuration;
pub mod error;
pub mod implementations;
pub mod prng;
pub mod text;
