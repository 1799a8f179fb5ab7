//! The commands of the key bindings, each a function on the application
//! state.
pub mod app;
pub mod attribute;
pub mod bookmark;
pub mod bookmark_list;
pub mod change_dir;
pub mod command;
pub mod enter_file;
pub mod file;
pub mod file_info;
pub mod filer;
pub mod grep;
pub mod input;
pub mod modal;
pub mod prompt;
pub mod move_cursor;
pub mod quit;
pub mod refresh_files;
pub mod shell;
