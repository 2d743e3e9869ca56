//! Conversion of GoPro GPR raw images: reading what a raw decoder hands back, encoding it
//! as JPEG or PNG, reading EXIF metadata, and the state of an interactive shell around it.

pub mod config;
pub mod converter;
pub mod files;
pub mod metadata;
pub mod paths;
pub mod shell;
pub mod text;
