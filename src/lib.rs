//! A grid battle simulation: a torus of fighters in which every cell in turn
//! attacks a neighbour picked by a selection policy, and losers are taken
//! over by the winner's kind.

pub mod args;
pub mod battle;
pub mod color_fight;
pub mod grid;
pub mod pokemon;
mod random;
pub mod real_pokemons;
pub mod rps;
pub mod street_fighter;
pub mod traversal;
pub mod types;

pub use args::{Args, FighterType};
pub use battle::{neighbours, Battle, Fighter, Selection, SelectionAlgorithm};
pub use color_fight::ColorFighter;
pub use grid::{Grid2D, Location, Size};
pub use pokemon::{Pokemon, PokemonType};
pub use real_pokemons::RealPokemon;
pub use rps::{RPSType, RPS};
pub use street_fighter::{StreetFighter, StreetFighterType};
pub use types::{Colored, GenerateRandomly};
