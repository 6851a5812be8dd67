//! A live shader-reload controller.
//!
//! The controller keeps the pair of compiled shader binaries that back a live
//! material, queues change events for shader source files, decides which of
//! them ask for a recompile, and walks each accepted change through reading,
//! compiling and swapping the material.
//!
//! It does none of the outside work itself. [`MaterialAutoUpdate::step`]
//! takes one [`Input`] and hands back one [`Action`] for the caller to carry
//! out; [`MaterialAutoUpdate::update`] runs a whole poll against a [`Host`]
//! that reads, compiles and talks to the rendering engine. What the
//! controller does with every input is laid down in [`model`], and what
//! follows from that is proved in [`laws`].

pub mod controller;
pub mod event;
pub mod laws;
pub mod message;
pub mod model;
pub mod path;
pub mod stage;
pub mod text;
pub mod watch;

pub use controller::{Action, Host, Input, MaterialAutoUpdate};
pub use event::{ChangeEvent, ChangeKind};
pub use message::{Error, Message};
pub use stage::{DrawMode, ShaderStage};
