//! The interpretive core of an interactive command shell: tokens are parsed
//! into a syntax tree, the tree is flattened into a pipeline of stages, and
//! the pipeline is executed step by step by a state machine that tells its
//! driver which process to spawn, which file to touch and what to print.

pub mod text;
pub mod token;
pub mod parser;
pub mod logic;
pub mod registry;
pub mod executor;
pub mod commands;
pub mod listing;
pub mod config;
pub mod laws;
