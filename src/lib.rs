pub mod datatypes;
pub mod json_parser;
pub mod text;
pub mod template;
pub mod resource_types;
