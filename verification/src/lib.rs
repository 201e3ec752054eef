//! Locating and extracting subtitle tracks from media container files.
//!
//! For each entry of a directory the library decides what is to be done: it
//! tells container files from others, reads the text that the diagnostic tool
//! prints about a file to find the subtitle track, and leads the file through
//! extraction and, for advanced subtitles, conversion. It starts no program and
//! touches no file itself: the [`pipeline`] names each action, and the program
//! around the library carries it out and reports back.
//!
//! - [`locator`]: which track to extract, from the lines of diagnostic text.
//! - [`job`]: container paths and the subtitle paths derived from them.
//! - [`pipeline`]: the steps for one file, as a state machine.
//! - [`batch`]: one pipeline for each directory entry.
//! - [`startup`]: the tools that must be at hand, and the directory to work on.
//! - [`terminal`]: the lines in which outcomes are reported.
//! - [`text`], [`decimal`]: the models of texts and numbers that the contracts
//!   are stated over.

pub mod batch;
pub mod decimal;
pub mod job;
pub mod locator;
pub mod pipeline;
pub mod startup;
pub mod terminal;
pub mod text;
