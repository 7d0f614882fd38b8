//! A declarative machine-configuration engine: manifests of actions are
//! ordered by their dependencies, their guards are evaluated against host
//! facts, and each action is expanded into steps whose atoms are run.

pub mod text;
pub mod manifest;
pub mod actions;

pub mod privilege;
pub mod atoms;
pub mod contexts;
pub mod guard;
pub mod steps;
pub mod graph;
pub mod executor;
pub mod config;
