//! The download-and-extract run as a state machine. Each call on a
//! [`Session`] decides the next step and hands the driver an [`Action`] to
//! perform; the driver reports what happened back as an [`Event`]. Every
//! decision — when to extract, when the nested-archive case applies, when
//! and with what error the run halts — is made here.

use crate::fetch::{
    curl_args, curl_args_match, curl_program, curl_program_spec, opt_str_view, DownloadOutcome,
    FetchError, TargetOs,
};
use crate::unpack::{find_nested_zip, join_path, joined, nested_zip_name, nested_zip_present};
use vstd::prelude::*;

verus! {

/// Why a run stopped early: a failure the fetcher itself describes, or a
/// failure of an outside step (extraction, listing, removal, or an
/// unclassified spawn error) whose concrete error the driver already holds
/// and propagates unmodified.
pub enum SessionError {
    Fetch(FetchError),
    External,
}

/// How a downloader outcome is classified: a successful exit is success; a
/// non-success exit becomes a failure carrying the exit status; a missing
/// binary becomes a failure naming the program; any other spawn failure is
/// left to the driver to propagate.
pub open spec fn classify_spec(
    program: Seq<char>,
    outcome: DownloadOutcome,
    r: Result<(), SessionError>,
) -> bool {
    match outcome {
        DownloadOutcome::Completed { success, status } => if success {
            r is Ok
        } else {
            r matches Err(SessionError::Fetch(FetchError::FailedStatus { status: s })) && s@
                == status@
        },
        DownloadOutcome::SpawnNotFound => r matches Err(
            SessionError::Fetch(FetchError::MissingCommand { program: p }),
        ) && p@ == program,
        DownloadOutcome::SpawnFailedOther => r matches Err(SessionError::External),
    }
}

/// Classify what the driver observed of the downloader process.
pub fn classify_download(program: &str, outcome: DownloadOutcome) -> (r: Result<(), SessionError>)
    ensures
        classify_spec(program@, outcome, r),
{
    match outcome {
        DownloadOutcome::Completed { success, status } => {
            if success {
                Ok(())
            } else {
                Err(SessionError::Fetch(FetchError::FailedStatus { status }))
            }
        },
        DownloadOutcome::SpawnNotFound => {
            Err(SessionError::Fetch(FetchError::MissingCommand { program: program.to_owned() }))
        },
        DownloadOutcome::SpawnFailedOther => Err(SessionError::External),
    }
}

/// Where a run stands: waiting for the download, for the first extraction,
/// for the directory listing, for the nested extraction, for the removal of
/// the nested archive, or finished.
pub enum Phase {
    Downloading,
    Extracting,
    Inspecting,
    ExtractingNested { name: String },
    RemovingNested { name: String },
    Done { ok: bool },
}

/// What the driver reports back after performing an action. A failed
/// extraction, listing or removal means the driver holds the concrete error
/// and will propagate it once the session halts.
pub enum Event {
    DownloadFinished { outcome: DownloadOutcome },
    ExtractionFinished { ok: bool },
    ListingFinished { entries: Option<Vec<String>> },
    NestedExtractionFinished { ok: bool },
    RemovalFinished { ok: bool },
}

/// What the driver is asked to do next: run the downloader, extract an
/// archive file into a directory (optionally flattening its top-level
/// directory away), list a directory's top-level entry names, remove a
/// file, or stop with the run's result.
pub enum Action {
    RunDownloader { program: String, args: Vec<String> },
    ExtractArchive { archive: String, dest: String, flatten: bool },
    ListEntries { dir: String },
    RemoveFile { path: String },
    Finish { result: Result<(), SessionError> },
}

/// Which event a phase is waiting for.
pub open spec fn expects(phase: Phase, event: Event) -> bool {
    match phase {
        Phase::Downloading => event is DownloadFinished,
        Phase::Extracting => event is ExtractionFinished,
        Phase::Inspecting => event is ListingFinished,
        Phase::ExtractingNested { .. } => event is NestedExtractionFinished,
        Phase::RemovingNested { .. } => event is RemovalFinished,
        Phase::Done { .. } => false,
    }
}

/// A run that halted on an outside failure: the session is done without
/// success and the driver is told to stop and propagate the error it holds.
pub open spec fn halted_external(post: Session, action: Action) -> bool {
    &&& post.phase matches Phase::Done { ok } && !ok
    &&& action matches Action::Finish { result } && result matches Err(e) && e is External
}

/// A run that finished successfully.
pub open spec fn finished_ok(post: Session, action: Action) -> bool {
    &&& post.phase matches Phase::Done { ok } && ok
    &&& action matches Action::Finish { result } && result is Ok
}

/// One run of the helper: download a URL into `<dir>/libscip.zip`, extract
/// it into `dir`, and, when the extraction leaves exactly one entry besides
/// the downloaded archive itself and that entry is a `.zip`, extract it
/// flattened into `<dir>/scip_install` and remove it.
pub struct Session {
    pub url: String,
    pub dir: String,
    pub program: String,
    pub phase: Phase,
}

/// The whole decision table of a run: what each event makes of each phase,
/// and the exact action the driver is handed.
pub open spec fn step_spec(pre: Session, event: Event, post: Session, action: Action) -> bool {
    &&& post.url@ == pre.url@
    &&& post.dir@ == pre.dir@
    &&& post.program@ == pre.program@
    &&& match pre.phase {
        Phase::Downloading => event matches Event::DownloadFinished { outcome }
            ==> match outcome {
            DownloadOutcome::Completed { success, status } => if success {
                &&& post.phase is Extracting
                &&& action matches Action::ExtractArchive { archive, dest, flatten } && archive@
                    == joined(pre.dir@, "libscip.zip"@) && dest@ == pre.dir@ && flatten == false
            } else {
                &&& post.phase matches Phase::Done { ok } && !ok
                &&& action matches Action::Finish { result } && result matches Err(
                    SessionError::Fetch(FetchError::FailedStatus { status: s }),
                ) && s@ == status@
            },
            DownloadOutcome::SpawnNotFound => {
                &&& post.phase matches Phase::Done { ok } && !ok
                &&& action matches Action::Finish { result } && result matches Err(
                    SessionError::Fetch(FetchError::MissingCommand { program: p }),
                ) && p@ == pre.program@
            },
            DownloadOutcome::SpawnFailedOther => halted_external(post, action),
        },
        Phase::Extracting => event matches Event::ExtractionFinished { ok }
            ==> if ok {
            &&& post.phase is Inspecting
            &&& action matches Action::ListEntries { dir } && dir@ == pre.dir@
        } else {
            halted_external(post, action)
        },
        Phase::Inspecting => event matches Event::ListingFinished { entries }
            ==> match entries {
            Some(names) => if nested_zip_present(names@) {
                &&& post.phase matches Phase::ExtractingNested { name } && name@ == nested_zip_name(
                    names@,
                )
                &&& action matches Action::ExtractArchive { archive, dest, flatten } && archive@
                    == joined(pre.dir@, nested_zip_name(names@)) && dest@ == joined(
                    pre.dir@,
                    "scip_install"@,
                ) && flatten == true
            } else {
                finished_ok(post, action)
            },
            None => halted_external(post, action),
        },
        Phase::ExtractingNested { name } => event matches Event::NestedExtractionFinished { ok }
            ==> if ok {
            &&& post.phase matches Phase::RemovingNested { name: kept } && kept@ == name@
            &&& action matches Action::RemoveFile { path } && path@ == joined(pre.dir@, name@)
        } else {
            halted_external(post, action)
        },
        Phase::RemovingNested { .. } => event matches Event::RemovalFinished { ok }
            ==> if ok {
            finished_ok(post, action)
        } else {
            halted_external(post, action)
        },
        Phase::Done { .. } => false,
    }
}

/// A failed first extraction halts the run at once: the driver is told to
/// stop and propagate the extraction routine's own error, and no further
/// file-touching action is issued, so the directory is left exactly as that
/// routine's failure left it.
pub proof fn failed_extraction_halts(pre: Session, event: Event, post: Session, action: Action)
    requires
        pre.phase is Extracting,
        event matches Event::ExtractionFinished { ok } && !ok,
        step_spec(pre, event, post, action),
    ensures
        action matches Action::Finish { result } && result matches Err(e) && e is External,
        post.phase matches Phase::Done { ok } && !ok,
{
}

impl Session {
    /// Start a run for a URL and an extraction directory: the session waits
    /// for the download, and the driver is asked to run the downloader that
    /// the build target calls for, with the exact argument list — the
    /// destination being `libscip.zip` under the extraction directory.
    pub fn begin(url: String, dir: String, target: TargetOs, cacert: &Option<String>) -> (r: (
        Session,
        Action,
    ))
        ensures
            r.0.url@ == url@,
            r.0.dir@ == dir@,
            r.0.program@ == curl_program_spec(target),
            r.0.phase is Downloading,
            r.1 matches Action::RunDownloader { program, args } && program@
                == curl_program_spec(target) && curl_args_match(
                args@,
                url@,
                joined(dir@, "libscip.zip"@),
                opt_str_view(*cacert),
            ),
    {
        let program: String = curl_program(target).to_owned();
        let dest: String = join_path(dir.as_str(), "libscip.zip");
        let args: Vec<String> = curl_args(url.as_str(), dest.as_str(), cacert);
        let session = Session { url, dir, program: program.clone(), phase: Phase::Downloading };
        (session, Action::RunDownloader { program, args })
    }

    /// Take one step: consume the event the current phase is waiting for,
    /// move to the next phase, and hand the driver its next action.
    pub fn step(&mut self, event: Event) -> (action: Action)
        requires
            expects(old(self).phase, event),
        ensures
            step_spec(*old(self), event, *final(self), action),
    {
        let (next, action): (Phase, Action) = match (&self.phase, event) {
            (Phase::Downloading, Event::DownloadFinished { outcome }) => {
                match classify_download(self.program.as_str(), outcome) {
                    Ok(()) => (
                        Phase::Extracting,
                        Action::ExtractArchive {
                            archive: join_path(self.dir.as_str(), "libscip.zip"),
                            dest: self.dir.clone(),
                            flatten: false,
                        },
                    ),
                    Err(e) => (Phase::Done { ok: false }, Action::Finish { result: Err(e) }),
                }
            },
            (Phase::Extracting, Event::ExtractionFinished { ok }) => {
                if ok {
                    (Phase::Inspecting, Action::ListEntries { dir: self.dir.clone() })
                } else {
                    (
                        Phase::Done { ok: false },
                        Action::Finish { result: Err(SessionError::External) },
                    )
                }
            },
            (Phase::Inspecting, Event::ListingFinished { entries }) => {
                match entries {
                    Some(names) => {
                        match find_nested_zip(&names) {
                            Some(name) => {
                                let archive: String = join_path(self.dir.as_str(), name.as_str());
                                let dest: String = join_path(self.dir.as_str(), "scip_install");
                                (
                                    Phase::ExtractingNested { name },
                                    Action::ExtractArchive { archive, dest, flatten: true },
                                )
                            },
                            None => (Phase::Done { ok: true }, Action::Finish { result: Ok(()) }),
                        }
                    },
                    None => (
                        Phase::Done { ok: false },
                        Action::Finish { result: Err(SessionError::External) },
                    ),
                }
            },
            (Phase::ExtractingNested { name }, Event::NestedExtractionFinished { ok }) => {
                if ok {
                    let kept: String = name.clone();
                    let path: String = join_path(self.dir.as_str(), kept.as_str());
                    (Phase::RemovingNested { name: kept }, Action::RemoveFile { path })
                } else {
                    (
                        Phase::Done { ok: false },
                        Action::Finish { result: Err(SessionError::External) },
                    )
                }
            },
            (Phase::RemovingNested { .. }, Event::RemovalFinished { ok }) => {
                if ok {
                    (Phase::Done { ok: true }, Action::Finish { result: Ok(()) })
                } else {
                    (
                        Phase::Done { ok: false },
                        Action::Finish { result: Err(SessionError::External) },
                    )
                }
            },
            _ => unreached(),
        };
        self.phase = next;
        action
    }
}

} // verus!
