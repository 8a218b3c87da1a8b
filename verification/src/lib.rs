pub mod actions;
pub mod entry;
pub mod locate;
pub mod parse;
pub mod preamble;
pub mod render;
pub mod settings;
pub mod text;
