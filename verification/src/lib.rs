//! A list of submitted links, kept in one storage record of fixed capacity.

pub mod address;
pub mod error;
pub mod history;
pub mod instructions;
pub mod state;

pub use address::Address;
pub use error::ProgramError;
pub use instructions::{add_gif, start_stuff_off, AddGif, Caller, StartStuffOff};
pub use state::{BaseAccount, ItemStruct};
