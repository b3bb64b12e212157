//! A packer for executables: it recognises the container format of a payload,
//! compresses and encrypts it, and renders the source of a small program that
//! carries the encrypted bytes together with their key.
//!
//! The crate holds the decisions and the data transformations. Reading and
//! writing files, running the toolchain and drawing the progress display are
//! left to the caller, which is told what to do next after every step.
//!
//! - `format` tells whether a payload is an executable that is packed.
//! - `keys` draws the key material of a run.
//! - `transform` compresses and encrypts, and leads back again.
//! - `stub` renders the program that carries the result, and its manifest.
//! - `orchestrator` decides the steps of the build, cleanup included.
//! - `job` leads one run through its stages and names the event of each.
//! - `event` is the form in which progress is reported.
//! - `display` keeps what the progress display shows.
//! - `error` names what can fail.

pub mod display;
pub mod error;
pub mod event;
pub mod format;
pub mod job;
pub mod keys;
pub mod orchestrator;
pub mod stub;
pub mod transform;
