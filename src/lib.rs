pub mod cell;
pub mod laws;
pub mod settings;
pub mod world;

pub use cell::Cell;
pub use settings::Settings;
pub use world::World;
