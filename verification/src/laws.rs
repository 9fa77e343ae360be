//! Laws of the runs, proved from the transitions that specify them.

pub mod groups;
pub mod pacing;
pub mod reads;
pub mod submissions;
pub mod turns;
