//! Everything the app needs to interpret the Filen CLI's output.

pub mod framer;
pub mod stream;
pub mod events;
pub mod network;
pub mod handler;
pub mod discovery;
pub mod process;
pub mod lifecycle;
pub mod search;
