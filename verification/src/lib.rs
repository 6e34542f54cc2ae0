//! Goobler: the decision logic of a desktop noise generator.
//!
//! The library holds the parts of the program that are about state and
//! choices rather than about sound samples: the noise colours and their
//! order, the application's mode machine, the settings menu and its keyboard
//! handling, the arrangement of output devices, the choice of a sample rate
//! and the interleaving of stereo frames.

pub mod audio;
pub mod config;
pub mod state;
pub mod ui;
