//! Planning and supervision logic for video editing jobs that an external
//! command-line transcoder carries out.
//!
//! A job is described by [`options::VideoEditOptions`]. The library turns it
//! into the transcoder's command line ([`arguments`]), names the file that
//! the job writes ([`output`]), reads what the probe tool reports of the
//! input ([`probe`]), and keeps the progress that the transcoder streams
//! while it runs ([`progress`]). Where the tools are missing, a state machine
//! says how to acquire them ([`bootstrap`]).
//!
//! The library runs no process and touches no file: its caller does, and
//! hands over what came of it.

pub mod arguments;
pub mod bootstrap;
pub mod options;
pub mod output;
pub mod probe;
pub mod progress;
pub mod text;
pub mod timecode;
pub mod video_files;
