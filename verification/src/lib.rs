//! Reversible editing of a pool-allocated scene graph.
//!
//! The crate centres on an undo/redo command layer: every structural or
//! property edit of the scene graph is a command with `execute`, `revert`
//! and, where slots must eventually be released, `finalize`. Each command
//! carries a contract, and the accompanying proofs show that `revert`
//! undoes `execute` exactly — same handles, same parent links, same field
//! values — so an undo stack built on these commands is lossless.
//!
//! Nodes live in a generational arena ([`pool`]): a [`handle::Handle`] is
//! an (index, generation) pair, and provisional removal hands out a
//! single-use [`handle::Ticket`] that restores the very same handle, which
//! is what keeps handles stable across undo. The [`graph`] module adds the
//! parent relation and whole-subtree extraction; the `command_` modules
//! hold the concrete reversible operations; [`logger`] prepares filtered,
//! prefixed log output for whatever sinks the host owns.

pub mod absm;
pub mod command_field;
pub mod command_link;
pub mod command_node;
pub mod command_property;
pub mod command_script;
pub mod command_sub_graph;
pub mod command_transform;
pub mod equiv;
pub mod graph;
pub mod handle;
pub mod listener;
pub mod logger;
pub mod node;
pub mod pool;
pub mod scene;
pub mod text;
pub mod transition;
