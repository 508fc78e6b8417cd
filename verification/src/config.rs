//! What the user asked for on the command line.

use vstd::prelude::*;

verus! {

/// The switches that every command honours.
#[derive(Debug, Clone)]
pub struct Flags {
    /// Show more.
    pub verbose: bool,
    /// Show the bare result only.
    pub simple: bool,
    /// Show a progress bar.
    pub pbar: bool,
    /// A file with further hosts to probe.
    pub cdnfile: Option<String>,
}

/// The command line as a whole.
pub struct Cli {
    /// Show the bare result only.
    pub simple: bool,
    /// Show more.
    pub verbose: bool,
    /// A file with further hosts to probe.
    pub cdnfile: Option<String>,
    /// What to do; `None` asks interactively.
    pub command: Option<Commands>,
}

/// What to do.
pub enum Commands {
    /// Sweep a range of timestamps for a working playlist.
    Bruteforce { progressbar: bool, username: String, id: i64, from: String, to: String },
    /// Build the playlist URL of one timestamp.
    Exact { progressbar: bool, username: String, id: i64, stamp: String },
    /// Find the playlist from a tracker page.
    Link { progressbar: bool, url: String },
    /// Find the playlist of a clip.
    Clip { progressbar: bool, slug: String },
    /// Sweep a range of offsets for the clips of a broadcast.
    Clipforce { progressbar: bool, id: i64, start: i64, end: i64 },
}

} // verus!
