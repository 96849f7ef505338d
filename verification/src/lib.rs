//! Decision core of a bridge that embeds a script engine in a host process.
//!
//! The engine itself, the scheduler it runs on and the host's object model are
//! outside this library. What is here are the rules the bridge follows: how a
//! dialect constant selects a media type, what is staged for the module loader,
//! in which order the lifecycle steps of one evaluation run and when they stop,
//! and what the host sees in the end.

pub mod binding;
pub mod flavor;
pub mod runner;
pub mod sequencer;
pub mod source;

pub use binding::{Deno, Reply, Request};
pub use flavor::{Flavor, MediaType, Type};
pub use runner::Runner;
pub use sequencer::{Action, Evaluation, Step};
pub use source::SourceFile;
