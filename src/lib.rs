pub mod filesystem_error;
pub mod open_options;
pub mod game_directories;
pub mod file_extension;
pub mod filesystem;
