//! Partner matching for a students' dating service: profiles, preferences,
//! the mutual filters between two users, and the life of a pairing.

pub mod callbacks;
pub mod cities;
pub mod clock;
pub mod datings;
pub mod db;
pub mod dialogue;
pub mod entities;
pub mod error;
pub mod keyboard;
pub mod links;
pub mod matching;
pub mod notices;
pub mod profile;
pub mod strings;
pub mod text;
pub mod types;
