//! The immutable configuration snapshot for one worker invocation.

use vstd::prelude::*;

verus! {

/// One invocation's worth of configuration, captured by the front end and
/// handed to the core as a value. It is never mutated after construction:
/// every start builds its argument vector fresh from the snapshot it was
/// given.
///
/// The four `*_path` fields are located paths to the worker binary and the
/// three helper binaries it shells out to. `use_docker` selects containerized
/// execution; `enforce_output_format` is an output-format override, with the
/// empty string meaning "no override"; the remaining flags control metadata
/// stripping and image copying. Paths are passed through verbatim: validating
/// them is the worker's own job.
#[derive(Debug)]
pub struct Settings {
    pub lilt_path: String,
    pub sox_path: String,
    pub ffmpeg_path: String,
    pub ffprobe_path: String,
    pub use_docker: bool,
    pub enforce_output_format: String,
    pub no_preserve_metadata: bool,
    pub copy_images: bool,
    pub source_dir: String,
    pub target_dir: String,
}

/// Persisting settings is the front end's responsibility; the core only
/// acknowledges the request, so it succeeds on every input.
pub fn save_settings(settings: &Settings) -> (r: Result<(), String>)
    ensures
        r is Ok,
{
    let _ = settings;
    Ok(())
}

} // verus!
