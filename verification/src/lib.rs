//! Verified model and decision logic of a visual data-pipeline designer:
//! operators with typed properties, the connections that chain them, the
//! run loop that walks the chain, the console log, and the plans that each
//! operator kind follows when it runs.

pub mod text;
pub mod property;
pub mod data;
pub mod operator;
pub mod catalog;
pub mod edits;
pub mod plans;
pub mod log;
pub mod canvas;
pub mod run;
pub mod panels;
pub mod process;
pub mod laws;
pub mod plan_laws;
