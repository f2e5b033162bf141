//! The decisions of a command handler for deployable components.
//!
//! A component is a versioned build artifact in a remote store; a worker is
//! a running instance of one version of it. The commands here find
//! components, deploy them and look after their workers.
//!
//! Nothing in this crate does I/O. Every operation that needs the remote
//! store, the application in the current directory, the build or the user is
//! written as a small machine: its state says what to ask for next, and a
//! method of the state takes the answer and gives the next state, until the
//! result is there. The caller performs the requests.
//!
//! - [`name`]: qualified component names and how they are parsed.
//! - [`select`]: which components a command works on.
//! - [`lookup`]: finding one component, at the latest or at a pinned version.
//! - [`linking`]: the dynamic linking of a component, from its dependencies.
//! - [`deploy`]: what is uploaded, create or update, one component or many.
//! - [`workers`]: updating or redeploying the workers of components.
//! - [`auto_deploy`]: finding a component and deploying it where it is missing.
//! - [`listing`]: listing and showing deployed components.
//! - [`commands`]: the subcommands and how each begins.
//! - [`handler`]: the handler that all of them start from.
//! - [`model`], [`string_map`]: the values that they exchange.

pub mod auto_deploy;
pub mod commands;
pub mod deploy;
pub mod handler;
pub mod linking;
pub mod listing;
pub mod lookup;
pub mod model;
pub mod name;
pub mod select;
pub mod string_map;
pub mod workers;
