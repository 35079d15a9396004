//! Core of an interactive Game-of-Life simulator: the sparse living set, the
//! generation step, the background compute worker abstraction, the queue of
//! deferred user actions and the simulation state machine that ties them
//! together.

pub mod vector;
pub mod cells;
pub mod life;
pub mod worker;
pub mod clock;
pub mod simulation;
