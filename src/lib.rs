//! A static-site builder: front-matter parsing, layout lookup, page rendering
//! and the decisions of the build and copy passes, with their contracts.
pub mod attributes;
pub mod document;
pub mod error;
pub mod front_matter;
pub mod paths;
pub mod render;
pub mod site;
pub mod text;
