//! Configuration scaffolding for projects: detects the project language from
//! directory evidence, resolves static templates, and composes a memory
//! document with a dynamically rendered tool-usage section spliced in.

pub mod checker;
pub mod detector;
pub mod generator;
pub mod installer;
pub mod language;
pub mod registry;
pub mod splice;
pub mod strutil;
pub mod tools_detector;
pub mod validator;
