pub mod file_format;
pub mod reader;
pub mod template;
