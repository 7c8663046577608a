//! Resolve, download and unpack prebuilt FFmpeg binaries: the decisions of the
//! install pipeline, stated and proved.
//!
//! The crate touches neither the network nor the file system. The caller
//! fetches, reads and writes; the types here say what to fetch, where to
//! write, and what progress to report:
//!
//! - [`sources`]: which document to ask for, and which download in it fits;
//! - [`download`]: where the download goes and what each chunk adds;
//! - [`extract`]: what an archive holds, and what to create for each entry;
//! - [`installer`]: the state machine that leads one install through these.

pub mod download;
pub mod error;
pub mod extract;
pub mod installer;
pub mod paths;
pub mod progress;
pub mod sources;
pub mod text;
pub mod utils;

pub use error::Error;
pub use extract::Extractor;
pub use installer::{FFbins, InstallAction, InstallEvent, InstallProgress, Options, State};
pub use sources::{Binary, Versions};
