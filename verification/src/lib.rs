//! The engine of a batch converter of images to JPEG XL: it hands the files
//! of a fixed work list to a pool of workers, decides for each file how it
//! is converted and whether it is tried a second time at a lower quality,
//! records one outcome for each file, and keeps the counters from which
//! progress, remaining time and savings are shown.
//!
//! The engine performs no input or output. Wherever a file has to be
//! touched or a program run, it says so as a [`attempt::Request`], and takes
//! the result as an [`attempt::Event`]. The program around it performs the
//! requests, runs the worker threads, and draws the display.
//!
//! - [`cli`]: the options of a run and the file types.
//! - [`outcome`]: the files of the work list and their outcomes.
//! - [`attempt`]: one conversion attempt, request by request, and the retry
//!   policy; [`verdict`]: what an attempt comes to, told in one piece.
//! - [`convert`]: the state that the workers share, and the steps that
//!   change it.
//! - [`progress`]: the counters of each file type and what they add up to.
//! - [`scan`], [`pattern`], [`order`]: how the work list is put together.
//! - [`encoder`]: the command line of the encoder.
//! - [`ui`], [`formatting`], [`text`], [`enums`]: what the display and the
//!   command line need besides.

pub mod attempt;
pub mod cli;
pub mod convert;
pub mod encoder;
pub mod enums;
pub mod formatting;
pub mod order;
pub mod outcome;
pub mod pattern;
pub mod progress;
pub mod scan;
pub mod text;
pub mod ui;
pub mod verdict;
