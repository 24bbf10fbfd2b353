//! A registry of local project directories, each bound to a project type: a
//! named list of commands that open the project. The functions here decide
//! what a registration records and what a launch runs; reading and writing
//! files and starting processes is left to the caller.

pub mod error;
pub mod table;
pub mod model;
pub mod paths;
pub mod template;
pub mod register;
pub mod launch;
