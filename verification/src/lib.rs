//! Project resolution and build planning for small C++ projects.
//!
//! A project is a directory with a manifest (`Cppargo.toml`), sources below
//! `src` and built binaries below `target`. This library decides everything
//! about building and running such a project, and does none of the outside
//! work itself: a session ([`builder::Build`], [`run::Run`],
//! [`new::Scaffold`]) names the next piece of work as an
//! [`effects::Request`] and is told what came of it as an
//! [`effects::Event`].
//!
//! - [`path`]: paths as anchor and segments.
//! - [`error`]: kinds of failure and their messages.
//! - [`listing`]: directory listings as values.
//! - [`locate`]: the search for the project root.
//! - [`manifest`]: the manifest and the project's name.
//! - [`collect`]: the walk that collects the sources; [`collect_laws`]
//!   says what it finds on any file system.
//! - [`compile`]: the compiler run and the target directory.
//! - [`builder`]: the build as a whole; [`builder_laws`] says what it
//!   resolves on any file system.
//! - [`run`]: running the built binary.
//! - [`new`]: laying out a new project.
//! - [`cli`]: the commands as plain values.

pub mod builder;
pub mod builder_laws;
pub mod cli;
pub mod collect;
pub mod collect_laws;
pub mod compile;
pub mod effects;
pub mod error;
pub mod listing;
pub mod locate;
pub mod manifest;
pub mod new;
pub mod path;
pub mod run;
