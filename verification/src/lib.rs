//! Goonto: the configuration model, image sources and per-effect decisions of
//! a desktop "effects" program, with their behaviour stated and proved.
//!
//! The windowing, networking and file-system work lives in the program
//! around this library; everything that decides *what* is shown, fetched,
//! typed or scheduled lives here.

pub mod config;
pub mod features;
mod random;
pub mod sources;
pub mod startup;
pub mod text;
pub mod laws;
