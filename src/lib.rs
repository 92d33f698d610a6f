//! Scaffolding of "want"-driven projects from reusable templates.
//!
//! The library holds the rules: placeholder substitution, slugs and dates,
//! the configuration record, template manifests, the file tree that a
//! template generates and the decisions that the commands take. Reading and
//! writing files, prompts and argument parsing are left to the caller.
pub mod commands;
pub mod config;
pub mod date;
pub mod error;
pub mod naming;
pub mod render;
pub mod template;
