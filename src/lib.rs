pub mod args;
pub mod grid;
pub mod interleave;
pub mod output;
pub mod pipeline;
pub mod reconcile;
