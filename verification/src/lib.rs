pub mod batch_map;
pub mod coordinator;
pub mod data_provider;
pub mod events;
pub mod keyed;
pub mod keys;
pub mod parse;
pub mod parse_laws;
pub mod projection;
pub mod server;
pub mod sets;
pub mod text;
pub mod tui;
pub mod volunteer;
