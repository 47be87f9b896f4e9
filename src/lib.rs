//! Decision core of a proxy for a device-bridge command-line tool: building
//! command lines, classifying tool results, resolving device ambiguity and
//! reading device listings.
pub mod device;
pub mod session;
pub mod text;

pub use device::Device;
pub use session::{Badb, BadbError, Reaction, Selection, ToolOutput};
