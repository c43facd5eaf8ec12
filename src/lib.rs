//! A manager for named sets of game plugins ("setups") kept under
//! `<root>/BepInEx/ModMgr`, one of which can be swapped into the live
//! `<root>/BepInEx/plugins` directory.
//!
//! The library holds every decision: which directories must exist, which
//! names are free, and which filesystem steps an operation takes. The caller
//! reads the disk into a [`disk::Snapshot`], runs the [`disk::FsOp`] steps an
//! operation plans, and reports failures back through [`error::step_failed`].
use vstd::prelude::*;

pub mod model;
pub mod error;
pub mod paths;
pub mod disk;
pub mod manager;
pub mod naming;
pub mod laws;
