//! What each command decides, apart from the reading and writing that its caller does.

pub mod check_command;
pub mod clean_command;
pub mod git_id;
pub mod haxelib_command;
pub mod init_command;
pub mod install_command;
pub mod tohxml_command;
