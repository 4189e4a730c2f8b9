//! Deterministic placement of repository clones.
//!
//! A repository URL is resolved into a host, an owner and a project name; these
//! are joined below a base directory; and the resulting commands are issued to
//! a backend that either performs them or only records what it would have done.

pub mod backend;
pub mod cloner;
pub mod location;
pub mod text;
