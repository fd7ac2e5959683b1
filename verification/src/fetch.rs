//! The fetcher's decisions: which downloader binary a build target calls
//! for, the argument list handed to it, and the errors a failed download
//! reports.

use vstd::prelude::*;

verus! {

/// The operating system a build is targeting. The choice of downloader
/// binary is driven by this declared target, never by the host running the
/// build, so that cross-compilation picks the target's binary name.
#[derive(Clone, Copy, PartialEq, Eq, Structural)]
pub enum TargetOs {
    Windows,
    Linux,
    MacOs,
    Other,
}

/// The downloader binary name a target calls for: PowerShell aliases `curl`
/// to `Invoke-WebRequest`, so on Windows the `.exe` name must be spelled out;
/// every other target uses the plain name.
pub open spec fn curl_program_spec(target: TargetOs) -> Seq<char> {
    if target is Windows {
        "curl.exe"@
    } else {
        "curl"@
    }
}

/// Pick the downloader binary name for the declared build target.
pub fn curl_program(target: TargetOs) -> (r: &'static str)
    ensures
        r@ == curl_program_spec(target),
{
    match target {
        TargetOs::Windows => "curl.exe",
        TargetOs::Linux => "curl",
        TargetOs::MacOs => "curl",
        TargetOs::Other => "curl",
    }
}

/// The view of an optional CA certificate bundle path.
pub open spec fn opt_str_view(c: Option<String>) -> Option<Seq<char>> {
    match c {
        Some(s) => Some(s@),
        None => None,
    }
}

/// A CA bundle is forwarded to the downloader only when one is configured
/// and its path is non-empty.
pub open spec fn cacert_active(cacert: Option<Seq<char>>) -> bool {
    match cacert {
        Some(c) => c.len() > 0,
        None => false,
    }
}

/// The downloader's exact argument list: silent mode, follow redirects,
/// write to the destination path, fetch the URL — and, only when a CA bundle
/// is configured, the trust-anchor flag with the bundle's path appended.
pub open spec fn curl_args_match(
    args: Seq<String>,
    url: Seq<char>,
    dest: Seq<char>,
    cacert: Option<Seq<char>>,
) -> bool {
    &&& args.len() == if cacert_active(cacert) {
        6int
    } else {
        4int
    }
    &&& args[0]@ == "-sSL"@
    &&& args[1]@ == "-o"@
    &&& args[2]@ == dest
    &&& args[3]@ == url
    &&& cacert_active(cacert) ==> args[4]@ == "--cacert"@ && args[5]@ == cacert->0
}

/// Build the downloader's argument list for a URL and a destination path,
/// forwarding the CA bundle path only when one is configured and non-empty.
pub fn curl_args(url: &str, dest: &str, cacert: &Option<String>) -> (args: Vec<String>)
    ensures
        curl_args_match(args@, url@, dest@, opt_str_view(*cacert)),
{
    let mut args: Vec<String> = Vec::new();
    args.push("-sSL".to_owned());
    args.push("-o".to_owned());
    args.push(dest.to_owned());
    args.push(url.to_owned());
    match cacert {
        Some(path) => {
            if !path.as_str().is_empty() {
                args.push("--cacert".to_owned());
                args.push(path.clone());
            }
        },
        None => {},
    }
    args
}

/// What the driver observed of the downloader process: it ran to completion
/// (with its success flag and its exit status rendered as text), its binary
/// was not found, or spawning failed for some other reason — in that last
/// case the driver keeps the spawn error and propagates it unmodified.
pub enum DownloadOutcome {
    Completed { success: bool, status: String },
    SpawnNotFound,
    SpawnFailedOther,
}

/// A download failure the fetcher itself describes: the downloader binary
/// is missing, or the downloader exited with a non-success status.
pub enum FetchError {
    MissingCommand { program: String },
    FailedStatus { status: String },
}

impl FetchError {
    /// The human-readable text of the failure: a missing binary is named
    /// between backquotes, and a failed run embeds the exit status.
    pub open spec fn message_spec(&self) -> Seq<char> {
        match self {
            FetchError::MissingCommand { program } => "`"@ + program@ + "` command not found"@,
            FetchError::FailedStatus { status } => "curl download file exited with error status: "@
                + status@,
        }
    }

    /// Render the failure as its message text.
    pub fn message(&self) -> (r: String)
        ensures
            r@ == self.message_spec(),
    {
        match self {
            FetchError::MissingCommand { program } => {
                let mut r: String = "`".to_owned();
                r.push_str(program.as_str());
                r.push_str("` command not found");
                r
            },
            FetchError::FailedStatus { status } => {
                let mut r: String = "curl download file exited with error status: ".to_owned();
                r.push_str(status.as_str());
                r
            },
        }
    }
}

} // verus!
