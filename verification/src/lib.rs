//! Picks the TensorFlow container image that a project asks for and plans the
//! container-runtime calls that list, pull, run, save and remove such images.

pub mod command;
pub mod config;
pub mod error;
pub mod image;
pub mod info;
pub mod misc;
pub mod resolve;
pub mod runtime;
pub mod table;
pub mod text;
pub mod toolchain;
