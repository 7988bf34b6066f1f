use vstd::prelude::*;

use crate::platform::{Architecture, DownloadedFileType, Os};
use crate::release::{is_install_outcome, plan_install, GithubRelease, InstallPlan};

verus! {

/// Installation progress that the host shows to the user.
#[derive(Clone, Copy, Debug, PartialEq, Eq, Structural)]
pub enum InstallStatus {
    CheckingForUpdate,
    Downloading,
}

/// What the resolver waits for.
#[derive(Debug)]
pub enum Phase {
    /// No lookup is under way.
    Idle,
    /// Asked whether the server is on the worktree's search path.
    SearchingPath,
    /// Asked whether the remembered executable is still a file.
    CheckingCache { path: String },
    /// Asked to show that updates are being checked.
    ReportingCheck,
    /// Asked for the latest published release.
    FetchingRelease,
    /// Asked which platform the host runs on.
    QueryingPlatform { release: GithubRelease },
    /// Asked whether the release's executable is already unpacked.
    CheckingInstall { plan: InstallPlan },
    /// Asked to show that a download is under way.
    ReportingDownload { plan: InstallPlan },
    /// Asked to fetch and unpack the release archive.
    Downloading { plan: InstallPlan },
    /// Asked to mark the unpacked server as executable.
    MakingExecutable { plan: InstallPlan },
    /// Asked to open a listing of the working directory.
    ListingDir { plan: InstallPlan },
    /// Asked for the next entry of that listing.
    ReadingEntry { plan: InstallPlan },
    /// Asked to delete the current entry of that listing.
    RemovingEntry { plan: InstallPlan },
}

/// What the host reports back after carrying out an [`Action`].
#[derive(Debug)]
pub enum Event {
    /// Where the server lies on the search path, if it does.
    PathLookup(Option<String>),
    /// Whether the path asked about names an existing regular file.
    IsFile(bool),
    /// A status report or a deletion was carried out.
    Acknowledged,
    /// The latest release, or why it could not be had.
    Release(Result<GithubRelease, String>),
    /// The host's platform.
    Platform(Os, Architecture),
    /// Outcome of fetching and unpacking the archive.
    Downloaded(Result<(), String>),
    /// Outcome of marking the server executable.
    MadeExecutable(Result<(), String>),
    /// Outcome of opening the listing of the working directory.
    Listed(Result<(), String>),
    /// The next entry of the listing: `None` once it is exhausted, else the
    /// entry's file name (`None` where it is not valid Unicode) or why it
    /// could not be read.
    Entry(Option<Result<Option<String>, String>>),
}

/// What the host is asked to do next.
#[derive(Debug)]
pub enum Action {
    /// Look up the named program on the worktree's search path.
    FindOnPath(String),
    /// Tell whether the path names an existing regular file.
    CheckIsFile(String),
    /// Show the installation status.
    ReportStatus(InstallStatus),
    /// Fetch the latest non-prerelease release with assets of the repository.
    FetchLatestRelease(String),
    /// Tell which platform the host runs on.
    QueryPlatform,
    /// Fetch the archive at `url` and unpack it into `dir`.
    Download { url: String, dir: String, file_type: DownloadedFileType },
    /// Mark the file at the path as executable.
    MakeExecutable(String),
    /// Open a listing of the working directory.
    ListWorkingDir,
    /// Read the next entry of the listing.
    NextEntry,
    /// Delete the current entry of the listing, whatever comes of it.
    RemoveEntry,
    /// The lookup is over: the server's path, or why it could not be had.
    Finish(Result<String, String>),
}

/// Locates the language server, installing it from its latest release
/// where it is neither on the search path nor already installed.
#[derive(Debug)]
pub struct NeoCMakeExt {
    /// The executable that the last install produced or found in place.
    pub cached_binary_path: Option<String>,
    /// Where the current lookup stands.
    pub phase: Phase,
}

/// Name of the server executable on the search path.
pub open spec fn server_name() -> Seq<char> {
    "neocmakelsp"@
}

/// Repository whose releases carry the server.
pub open spec fn server_repo() -> Seq<char> {
    "Decodetalkers/neocmakelsp"@
}

/// Error text when the archive could not be fetched.
pub open spec fn download_failed_message(e: Seq<char>) -> Seq<char> {
    "failed to download file: "@ + e
}

/// Error text when the working directory could not be listed.
pub open spec fn listing_failed_message(e: Seq<char>) -> Seq<char> {
    "failed to list working directory "@ + e
}

/// Error text when an entry of the listing could not be read.
pub open spec fn entry_failed_message(e: Seq<char>) -> Seq<char> {
    "failed to load directory entry "@ + e
}

/// An entry of the working directory called `name` survives the cleanup
/// after installing into `version_dir`: only the current version stays.
pub open spec fn is_kept(name: Option<String>, version_dir: Seq<char>) -> bool {
    name matches Some(n) && n@ == version_dir
}

/// `event` is the kind of report that `phase` waits for.
pub open spec fn expects(phase: Phase, event: Event) -> bool {
    match (phase, event) {
        (Phase::SearchingPath, Event::PathLookup(_)) => true,
        (Phase::CheckingCache { .. }, Event::IsFile(_)) => true,
        (Phase::ReportingCheck, Event::Acknowledged) => true,
        (Phase::FetchingRelease, Event::Release(_)) => true,
        (Phase::QueryingPlatform { .. }, Event::Platform(_, _)) => true,
        (Phase::CheckingInstall { .. }, Event::IsFile(_)) => true,
        (Phase::ReportingDownload { .. }, Event::Acknowledged) => true,
        (Phase::Downloading { .. }, Event::Downloaded(_)) => true,
        (Phase::MakingExecutable { .. }, Event::MadeExecutable(_)) => true,
        (Phase::ListingDir { .. }, Event::Listed(_)) => true,
        (Phase::ReadingEntry { .. }, Event::Entry(_)) => true,
        (Phase::RemovingEntry { .. }, Event::Acknowledged) => true,
        _ => false,
    }
}

/// `t` is `s` in phase `p`, with the remembered executable kept.
pub open spec fn moves_to(s: NeoCMakeExt, t: NeoCMakeExt, p: Phase) -> bool {
    t.phase == p && t.cached_binary_path == s.cached_binary_path
}

/// The lookup ends with the error text `msg`, and nothing is remembered anew.
pub open spec fn fails_with(s: NeoCMakeExt, t: NeoCMakeExt, a: Action, msg: Seq<char>) -> bool {
    moves_to(s, t, Phase::Idle) && (a matches Action::Finish(Err(m)) && m@ == msg)
}

/// The lookup ends with the freshly installed executable `path`, which is
/// remembered for the next lookup.
pub open spec fn installs(t: NeoCMakeExt, a: Action, path: String) -> bool {
    &&& t.phase == Phase::Idle
    &&& t.cached_binary_path == Some(path)
    &&& a == Action::Finish(Ok(path))
}

/// Reporting `e` to `s` leads to state `t` and to the request `a`.
pub open spec fn is_step(s: NeoCMakeExt, e: Event, t: NeoCMakeExt, a: Action) -> bool {
    match (s.phase, e) {
        (Phase::SearchingPath, Event::PathLookup(found)) => match found {
            Some(p) => moves_to(s, t, Phase::Idle) && a == Action::Finish(Ok(p)),
            None => match s.cached_binary_path {
                Some(c) => moves_to(s, t, Phase::CheckingCache { path: c }) && a
                    == Action::CheckIsFile(c),
                None => moves_to(s, t, Phase::ReportingCheck) && a == Action::ReportStatus(
                    InstallStatus::CheckingForUpdate,
                ),
            },
        },
        (Phase::CheckingCache { path }, Event::IsFile(is_file)) => if is_file {
            moves_to(s, t, Phase::Idle) && a == Action::Finish(Ok(path))
        } else {
            moves_to(s, t, Phase::ReportingCheck) && a == Action::ReportStatus(
                InstallStatus::CheckingForUpdate,
            )
        },
        (Phase::ReportingCheck, Event::Acknowledged) => moves_to(s, t, Phase::FetchingRelease)
            && (a matches Action::FetchLatestRelease(repo) && repo@ == server_repo()),
        (Phase::FetchingRelease, Event::Release(fetched)) => match fetched {
            Ok(release) => moves_to(s, t, Phase::QueryingPlatform { release }) && a
                == Action::QueryPlatform,
            Err(m) => moves_to(s, t, Phase::Idle) && a == Action::Finish(Err(m)),
        },
        (Phase::QueryingPlatform { release }, Event::Platform(os, arch)) => match a {
            Action::Finish(Err(m)) => moves_to(s, t, Phase::Idle) && is_install_outcome(
                release,
                os,
                arch,
                Err(m),
            ),
            Action::CheckIsFile(path) => t.cached_binary_path == s.cached_binary_path && (
            t.phase matches Phase::CheckingInstall { plan } && path == plan.binary_path
                && is_install_outcome(release, os, arch, Ok(plan))),
            _ => false,
        },
        (Phase::CheckingInstall { plan }, Event::IsFile(is_file)) => if is_file {
            installs(t, a, plan.binary_path)
        } else {
            moves_to(s, t, Phase::ReportingDownload { plan }) && a == Action::ReportStatus(
                InstallStatus::Downloading,
            )
        },
        (Phase::ReportingDownload { plan }, Event::Acknowledged) => moves_to(
            s,
            t,
            Phase::Downloading { plan },
        ) && a == (Action::Download {
            url: plan.download_url,
            dir: plan.version_dir,
            file_type: plan.file_type,
        }),
        (Phase::Downloading { plan }, Event::Downloaded(outcome)) => match outcome {
            Ok(_) => moves_to(s, t, Phase::MakingExecutable { plan }) && a
                == Action::MakeExecutable(plan.binary_path),
            Err(e) => fails_with(s, t, a, download_failed_message(e@)),
        },
        (Phase::MakingExecutable { plan }, Event::MadeExecutable(outcome)) => match outcome {
            Ok(_) => moves_to(s, t, Phase::ListingDir { plan }) && a == Action::ListWorkingDir,
            Err(m) => moves_to(s, t, Phase::Idle) && a == Action::Finish(Err(m)),
        },
        (Phase::ListingDir { plan }, Event::Listed(outcome)) => match outcome {
            Ok(_) => moves_to(s, t, Phase::ReadingEntry { plan }) && a == Action::NextEntry,
            Err(e) => fails_with(s, t, a, listing_failed_message(e@)),
        },
        (Phase::ReadingEntry { plan }, Event::Entry(entry)) => match entry {
            None => installs(t, a, plan.binary_path),
            Some(Err(e)) => fails_with(s, t, a, entry_failed_message(e@)),
            Some(Ok(name)) => if is_kept(name, plan.version_dir@) {
                moves_to(s, t, Phase::ReadingEntry { plan }) && a == Action::NextEntry
            } else {
                moves_to(s, t, Phase::RemovingEntry { plan }) && a == Action::RemoveEntry
            },
        },
        (Phase::RemovingEntry { plan }, Event::Acknowledged) => moves_to(
            s,
            t,
            Phase::ReadingEntry { plan },
        ) && a == Action::NextEntry,
        _ => false,
    }
}

/// Error text when the archive could not be fetched.
fn download_failed_message_for(e: &String) -> (r: String)
    ensures
        r@ == download_failed_message(e@),
{
    let mut r = String::from_str("failed to download file: ");
    r.append(e.as_str());
    r
}

/// Error text when the working directory could not be listed.
fn listing_failed_message_for(e: &String) -> (r: String)
    ensures
        r@ == listing_failed_message(e@),
{
    let mut r = String::from_str("failed to list working directory ");
    r.append(e.as_str());
    r
}

/// Error text when an entry of the listing could not be read.
fn entry_failed_message_for(e: &String) -> (r: String)
    ensures
        r@ == entry_failed_message(e@),
{
    let mut r = String::from_str("failed to load directory entry ");
    r.append(e.as_str());
    r
}

/// Whether an entry called `name` survives the cleanup after installing
/// into `version_dir`.
pub fn keeps_entry(name: &Option<String>, version_dir: &String) -> (r: bool)
    ensures
        r == is_kept(*name, version_dir@),
{
    match name {
        Some(n) => *n == *version_dir,
        None => false,
    }
}

impl NeoCMakeExt {
    /// A resolver that remembers no executable and has no lookup under way.
    pub fn new() -> (r: NeoCMakeExt)
        ensures
            r.cached_binary_path is None,
            r.phase == Phase::Idle,
    {
        NeoCMakeExt { cached_binary_path: None, phase: Phase::Idle }
    }

    /// Begins a lookup, abandoning any that was under way: the first request
    /// is to look for the server on the search path.
    pub fn start(&mut self) -> (r: Action)
        ensures
            moves_to(*old(self), *final(self), Phase::SearchingPath),
            r matches Action::FindOnPath(name) && name@ == server_name(),
    {
        self.phase = Phase::SearchingPath;
        Action::FindOnPath(String::from_str("neocmakelsp"))
    }

    /// Whether the current phase waits for a report of the kind of `event`.
    pub fn accepts(&self, event: &Event) -> (r: bool)
        ensures
            r == expects(self.phase, *event),
    {
        match (&self.phase, event) {
            (Phase::SearchingPath, Event::PathLookup(_)) => true,
            (Phase::CheckingCache { .. }, Event::IsFile(_)) => true,
            (Phase::ReportingCheck, Event::Acknowledged) => true,
            (Phase::FetchingRelease, Event::Release(_)) => true,
            (Phase::QueryingPlatform { .. }, Event::Platform(_, _)) => true,
            (Phase::CheckingInstall { .. }, Event::IsFile(_)) => true,
            (Phase::ReportingDownload { .. }, Event::Acknowledged) => true,
            (Phase::Downloading { .. }, Event::Downloaded(_)) => true,
            (Phase::MakingExecutable { .. }, Event::MadeExecutable(_)) => true,
            (Phase::ListingDir { .. }, Event::Listed(_)) => true,
            (Phase::ReadingEntry { .. }, Event::Entry(_)) => true,
            (Phase::RemovingEntry { .. }, Event::Acknowledged) => true,
            _ => false,
        }
    }

    /// Takes the host's report on the last request and decides the next one.
    pub fn step(&mut self, event: Event) -> (r: Action)
        requires
            expects(old(self).phase, event),
        ensures
            is_step(*old(self), event, *final(self), r),
    {
        let mut phase = Phase::Idle;
        std::mem::swap(&mut self.phase, &mut phase);
        match (phase, event) {
            (Phase::SearchingPath, Event::PathLookup(found)) => match found {
                Some(p) => Action::Finish(Ok(p)),
                None => match &self.cached_binary_path {
                    Some(c) => {
                        self.phase = Phase::CheckingCache { path: c.clone() };
                        Action::CheckIsFile(c.clone())
                    },
                    None => {
                        self.phase = Phase::ReportingCheck;
                        Action::ReportStatus(InstallStatus::CheckingForUpdate)
                    },
                },
            },
            (Phase::CheckingCache { path }, Event::IsFile(is_file)) => if is_file {
                Action::Finish(Ok(path))
            } else {
                self.phase = Phase::ReportingCheck;
                Action::ReportStatus(InstallStatus::CheckingForUpdate)
            },
            (Phase::ReportingCheck, Event::Acknowledged) => {
                self.phase = Phase::FetchingRelease;
                Action::FetchLatestRelease(String::from_str("Decodetalkers/neocmakelsp"))
            },
            (Phase::FetchingRelease, Event::Release(fetched)) => match fetched {
                Ok(release) => {
                    self.phase = Phase::QueryingPlatform { release };
                    Action::QueryPlatform
                },
                Err(m) => Action::Finish(Err(m)),
            },
            (Phase::QueryingPlatform { release }, Event::Platform(os, arch)) => match plan_install(
                &release,
                os,
                arch,
            ) {
                Ok(plan) => {
                    let path = plan.binary_path.clone();
                    self.phase = Phase::CheckingInstall { plan };
                    Action::CheckIsFile(path)
                },
                Err(m) => Action::Finish(Err(m)),
            },
            (Phase::CheckingInstall { plan }, Event::IsFile(is_file)) => if is_file {
                self.cached_binary_path = Some(plan.binary_path.clone());
                Action::Finish(Ok(plan.binary_path))
            } else {
                self.phase = Phase::ReportingDownload { plan };
                Action::ReportStatus(InstallStatus::Downloading)
            },
            (Phase::ReportingDownload { plan }, Event::Acknowledged) => {
                let a = Action::Download {
                    url: plan.download_url.clone(),
                    dir: plan.version_dir.clone(),
                    file_type: plan.file_type,
                };
                self.phase = Phase::Downloading { plan };
                a
            },
            (Phase::Downloading { plan }, Event::Downloaded(outcome)) => match outcome {
                Ok(_) => {
                    let a = Action::MakeExecutable(plan.binary_path.clone());
                    self.phase = Phase::MakingExecutable { plan };
                    a
                },
                Err(e) => Action::Finish(Err(download_failed_message_for(&e))),
            },
            (Phase::MakingExecutable { plan }, Event::MadeExecutable(outcome)) => match outcome {
                Ok(_) => {
                    self.phase = Phase::ListingDir { plan };
                    Action::ListWorkingDir
                },
                Err(m) => Action::Finish(Err(m)),
            },
            (Phase::ListingDir { plan }, Event::Listed(outcome)) => match outcome {
                Ok(_) => {
                    self.phase = Phase::ReadingEntry { plan };
                    Action::NextEntry
                },
                Err(e) => Action::Finish(Err(listing_failed_message_for(&e))),
            },
            (Phase::ReadingEntry { plan }, Event::Entry(entry)) => match entry {
                None => {
                    self.cached_binary_path = Some(plan.binary_path.clone());
                    Action::Finish(Ok(plan.binary_path))
                },
                Some(Err(e)) => Action::Finish(Err(entry_failed_message_for(&e))),
                Some(Ok(name)) => if keeps_entry(&name, &plan.version_dir) {
                    self.phase = Phase::ReadingEntry { plan };
                    Action::NextEntry
                } else {
                    self.phase = Phase::RemovingEntry { plan };
                    Action::RemoveEntry
                },
            },
            (Phase::RemovingEntry { plan }, Event::Acknowledged) => {
                self.phase = Phase::ReadingEntry { plan };
                Action::NextEntry
            },
            _ => unreached(),
        }
    }
}

} // verus!
