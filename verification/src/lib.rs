//! Input rules, batch accounting and status text of the RefX reference board.

pub mod appearance;
pub mod assets;
pub mod batch;
pub mod clock;
pub mod keys;
pub mod notes;
pub mod relink;
pub mod recovery;
pub mod rng;
pub mod selection;
pub mod session;
pub mod stats;
pub mod text;
