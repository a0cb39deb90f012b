//! Sorting a folder of images into a labelled dataset tree, as a state machine.
//!
//! The library decides; the program around it performs. Every handler takes the
//! live stage and one message, changes the stage, and answers with an
//! [`controller::Effect`]: nothing, a message to deliver next, or outside work
//! (a folder picker, a directory listing, a [`jobs::Job`] of file operations)
//! whose outcome comes back as another message.

pub mod text;
pub mod paths;
pub mod session;
pub mod jobs;
pub mod views;
pub mod controller;
