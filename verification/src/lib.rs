//! Rule-driven file housekeeping: decide which directory entries a recipe
//! selects, where each selected file belongs, and how a pass over all recipes
//! is accounted for. Every decision is a verified function on plain values;
//! reading directories, copying files and persisting recipes is left to the
//! caller.

pub mod settings;
pub mod text;
pub mod errors;
pub mod instant;
pub mod qualifier;
pub mod destination;
pub mod order;
pub mod organizer;
pub mod pass;
pub mod plan;
pub mod report;
pub mod stats;

pub use organizer::FileOrganizer;
pub use settings::{DateComparator, Recipe, Settings};
pub use stats::FileOrganizerStats;
