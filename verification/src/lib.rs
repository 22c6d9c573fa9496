//! Conventional per-user directories and hidden filesystem entries.
//!
//! The library is a pure core: it never touches the environment or the
//! filesystem itself.  Callers hand it what they observed (environment
//! variables, native answers, the state of an entry) and receive resolved
//! directories, or the path a transition leads to together with the
//! filesystem actions that carry it out.

pub mod autos;
pub mod dirs;
pub mod error;
pub mod fs;
pub mod hidden;
pub mod path;
pub mod utils;

pub use autos::{auto_creator, auto_deletor};
pub use dirs::base::BaseDirs;
pub use dirs::user::UserDirs;
pub use hidden::{Hidden, SuperHidden};
