//! Control plane of a runtime containment mechanism: sealed snapshots of
//! volatile state, the halt sequence, and the hot-swappable constraint cache
//! with its background compiler.

pub mod capture;
pub mod compiler;
pub mod halt;
pub mod hasher;
pub mod scheduler;
pub mod sealer;
pub mod snapshot;
pub mod text;
