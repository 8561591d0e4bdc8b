//! Core logic of a voxel-world game server fragment: the ore-vein density
//! sampler used during chunk generation, the vein-type catalog it draws from,
//! a scoreboard broadcaster's bookkeeping, the `transfer` command's decision
//! rules, and the hover-event data shape used by chat tooltips.
pub mod vein;
pub mod sampler;
pub mod transfer;
pub mod scoreboard;
pub mod hover;

pub use vein::BlockKind;
pub use vein::VeinType;
