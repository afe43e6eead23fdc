//! Classification and parsing of screen-capture clip filenames.

pub mod batch;
pub mod calendar;
pub mod error;
pub mod fields;
pub mod files;
pub mod grammar;
pub mod matcher;
pub mod pattern;
pub mod text;
pub mod videoclip;
