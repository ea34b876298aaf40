//! Registry and invocation protocol for external build-system plugins.
//!
//! A host build orchestrator discovers plugin executables on a search path by
//! a fixed naming convention, resolves a package's build targets by a JSON
//! request/response exchange with a plugin process, and reports every failure
//! of that exchange through a closed error taxonomy.  The process spawning and
//! file-system scanning themselves are left to the embedding program; this
//! crate holds the registry, the naming convention, the wire codec, the
//! suggestion logic for unknown identifiers, and the interpretation of a
//! finished exchange.

pub mod digest;
pub mod model;
pub mod parse;
pub mod process;
pub mod registry;
pub mod render;
pub mod suggest;
pub mod wire;
