//! An operations console core: a closed catalog of named commands, grouped
//! by category, together with a registry that binds each command to an
//! action and a dispatcher that resolves textual tokens and invokes the
//! bound action.
//!
//! The catalog is a fixed table of entries `{id, token, category,
//! description}`; tokens are unique, every command has exactly one category,
//! and lookups are total over the closed command set. The registry is built
//! once at startup and frozen; dispatching resolves a token to an entry,
//! looks up its bound action and invokes it, reporting unknown tokens and
//! action failures without panicking.

pub mod action;
pub mod catalog;
pub mod command;
pub mod dispatch;
pub mod listing;
pub mod registry;
pub mod text;
pub mod validate;
