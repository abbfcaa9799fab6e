//! Path manipulation in the manner of a scripting runtime's path module (POSIX and
//! Windows flavours), `file:` URL conversion, and a table that classifies files by
//! extension and name.

pub mod text;
pub mod js;
pub mod uri;
pub mod segments;
pub mod parsed;
pub mod posix;
pub mod windows;
pub mod filetype_types;
pub mod definitions;
pub mod glob;
pub mod filetypes;
pub mod node_path;
pub mod url;
pub mod url_ops;
pub mod file_url;
pub mod file_url_builder;
pub mod laws;
