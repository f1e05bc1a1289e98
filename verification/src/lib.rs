//! Pitch-to-note mapping, capture windowing and terminal views for a
//! microphone tuner. Frequencies are fixed-point: whole millihertz.

pub mod capture;
pub mod notes;
pub mod pitch_test;
pub mod term;
pub mod text;
pub mod tuner;
pub mod ui;
