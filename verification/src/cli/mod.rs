//! The decisions of the `fishword` command line. Each command is a step
//! function from the replies received so far to the next operation it needs
//! or to its final output; the program around it performs the operations.

pub mod args;
pub mod protocol;
pub mod step;
pub mod deck;
pub mod scope;
pub mod review;
pub mod rate;
pub mod card;
pub mod import;
pub mod catalog;
pub mod report;
pub mod run;
pub mod laws;
