pub mod msgutils;
pub mod palette;
pub mod text;
pub mod utils;
pub mod voice_states;
pub mod checks;
pub mod links;
pub mod commands;
