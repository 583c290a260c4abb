//! The dependency bootstrapper: the state machine that acquires the
//! transcoder and the probe tool when they are missing.
//!
//! The machine decides; its caller acts. Each step takes what has happened
//! (an event), moves to the next state, updates the status that pollers
//! read, and says what the caller is to do next (an action). Probing comes
//! first: where both tools can be run, the machine is done at once and never
//! asks for a download.

use vstd::prelude::*;
use vstd::string::*;
use crate::output::{is_uuid_text, new_uuid_text};
use crate::text::{
    capped, chars_of, find_from, lemma_first_index_of, same_str, same_text, slice_of,
};

verus! {

/// Where the archive of the tools for 64-bit ARM is fetched from.
pub const FFMPEG_WIN_ARM64_ZIP_URL: &'static str =
    "https://github.com/Azmekk/VideoCrop/releases/download/FFmpeg-binaries/ffmpeg-win-arm64.zip";

/// Where the archive of the tools for 64-bit x86 is fetched from.
pub const FFMPEG_WIN_X86_ZIP_URL: &'static str =
    "https://github.com/Azmekk/VideoCrop/releases/download/FFmpeg-binaries/ffmpeg-win-x86_64.zip";

/// The name that the downloaded archive's file name starts with.
pub const FFMPEG_FOLDER_NAME: &'static str = "ffmpeg_Videocrop";

/// The process creation flag that keeps a console window from opening.
pub const CREATE_NO_WINDOW: u32 = 0x08000000;

/// A job cannot be set up as asked. Not retried.
#[derive(Clone, Copy, Debug, PartialEq, Eq, Structural)]
pub enum ConfigurationError {
    /// No archive of the tools exists for the processor architecture.
    UnsupportedArchitecture,
}

/// A processor architecture for which an archive of the tools exists.
#[derive(Clone, Copy, Debug, PartialEq, Eq, Structural)]
pub enum Architecture {
    X86_64,
    Aarch64,
}

/// The states of the bootstrapper.
#[derive(Clone, Copy, Debug, PartialEq, Eq, Structural)]
pub enum BootstrapState {
    Idle,
    Probing,
    Downloading,
    Extracting,
    Registering,
    Completed,
    Failed,
}

/// What went wrong in a failed bootstrap attempt.
#[derive(Clone, Copy, Debug, PartialEq, Eq, Structural)]
pub enum BootstrapError {
    Download,
    Extraction,
}

/// What has happened since the last step.
#[derive(Clone, Copy, Debug, PartialEq, Eq, Structural)]
pub enum BootstrapEvent {
    /// The caller asks for the tools.
    Start,
    /// Each tool was run with a version query; `true` where that worked.
    ToolsProbed { ffmpeg: bool, ffprobe: bool },
    /// The install directory was looked at for an earlier extraction.
    LocalInstallChecked { found: bool },
    /// The server has answered; `total_bytes` is the length it announced.
    DownloadStarted { total_bytes: Option<u64> },
    /// More of the archive has arrived.
    ChunkReceived { bytes: u64 },
    DownloadFinished,
    DownloadFailed,
    Extracted,
    ExtractionFailed,
    /// The directory of the tools is on the search path.
    Registered,
}

/// What the caller is to do next.
#[derive(Clone, Copy, Debug, PartialEq, Eq, Structural)]
pub enum BootstrapAction {
    /// Nothing: wait for the work in hand, or stop where the machine is
    /// done.
    Nothing,
    /// Run each tool with a version query.
    ProbeTools,
    /// Look for an earlier extraction in the install directory.
    CheckLocalInstall,
    /// Fetch the archive to a temporary file.
    Download,
    /// Remove what an earlier extraction left, then unpack the archive into
    /// the install directory without its top-level directory.
    Extract,
    /// Put the directory of the tools on the search path.
    Register,
    /// Delete the temporary archive.
    DeleteArchive,
    /// Give the attempt up and report the error.
    Fail(BootstrapError),
}

/// The bootstrapper. `archive_fetched` says whether this attempt has
/// downloaded an archive.
#[derive(Clone, Copy, Debug, PartialEq, Eq, Structural)]
pub struct Bootstrapper {
    pub state: BootstrapState,
    pub architecture: Architecture,
    pub downloaded_bytes: u64,
    pub total_bytes: Option<u64>,
    pub archive_fetched: bool,
}

/// The status of the bootstrapper, for pollers. `percent_downloaded` counts
/// hundredths of a percent.
#[derive(Debug)]
pub struct DependenciesSetUpInfo {
    pub percent_downloaded: u64,
    pub status: String,
    pub completed: bool,
}

/// The status of the bootstrapper as a value of plain data.
pub struct DependencyStatus {
    pub percent_downloaded: nat,
    pub status: Seq<char>,
    pub completed: bool,
}

impl View for DependenciesSetUpInfo {
    type V = DependencyStatus;

    open spec fn view(&self) -> DependencyStatus {
        DependencyStatus {
            percent_downloaded: self.percent_downloaded as nat,
            status: self.status@,
            completed: self.completed,
        }
    }
}

/// One hundred percent, in hundredths of a percent.
pub open spec fn whole_share() -> nat {
    10_000
}

/// The architecture that a name of one stands for.
pub open spec fn architecture_named(name: Seq<char>) -> Option<Architecture> {
    if name == "x86_64"@ {
        Some(Architecture::X86_64)
    } else if name == "aarch64"@ {
        Some(Architecture::Aarch64)
    } else {
        None
    }
}

/// Where the archive for an architecture is fetched from.
pub open spec fn archive_url(architecture: Architecture) -> Seq<char> {
    match architecture {
        Architecture::X86_64 => FFMPEG_WIN_X86_ZIP_URL@,
        Architecture::Aarch64 => FFMPEG_WIN_ARM64_ZIP_URL@,
    }
}

/// The share of the archive that has arrived, in hundredths of a percent.
pub open spec fn download_share(downloaded: nat, total: nat) -> nat
    recommends
        total > 0,
{
    capped(downloaded * 10_000 / total, u64::MAX as nat)
}

/// The machine before anything has happened.
pub open spec fn initial_machine(architecture: Architecture) -> Bootstrapper {
    Bootstrapper {
        state: BootstrapState::Idle,
        architecture,
        downloaded_bytes: 0,
        total_bytes: None,
        archive_fetched: false,
    }
}

/// The machine after an event. An event that the state does not wait for
/// changes nothing.
pub open spec fn machine_after(machine: Bootstrapper, event: BootstrapEvent) -> Bootstrapper {
    match (machine.state, event) {
        (BootstrapState::Idle, BootstrapEvent::Start) => Bootstrapper {
            state: BootstrapState::Probing,
            ..machine
        },
        (BootstrapState::Probing, BootstrapEvent::ToolsProbed { ffmpeg, ffprobe }) => {
            if ffmpeg && ffprobe {
                Bootstrapper { state: BootstrapState::Completed, ..machine }
            } else {
                machine
            }
        },
        (BootstrapState::Probing, BootstrapEvent::LocalInstallChecked { found }) => {
            if found {
                Bootstrapper { state: BootstrapState::Registering, ..machine }
            } else {
                Bootstrapper {
                    state: BootstrapState::Downloading,
                    downloaded_bytes: 0,
                    total_bytes: None,
                    ..machine
                }
            }
        },
        (
            BootstrapState::Downloading,
            BootstrapEvent::DownloadStarted { total_bytes },
        ) => Bootstrapper { total_bytes, ..machine },
        (BootstrapState::Downloading, BootstrapEvent::ChunkReceived { bytes }) => Bootstrapper {
            downloaded_bytes: capped(
                (machine.downloaded_bytes + bytes) as nat,
                u64::MAX as nat,
            ) as u64,
            ..machine
        },
        (BootstrapState::Downloading, BootstrapEvent::DownloadFinished) => Bootstrapper {
            state: BootstrapState::Extracting,
            archive_fetched: true,
            ..machine
        },
        (BootstrapState::Downloading, BootstrapEvent::DownloadFailed) => Bootstrapper {
            state: BootstrapState::Failed,
            ..machine
        },
        (BootstrapState::Extracting, BootstrapEvent::Extracted) => Bootstrapper {
            state: BootstrapState::Registering,
            ..machine
        },
        (BootstrapState::Extracting, BootstrapEvent::ExtractionFailed) => Bootstrapper {
            state: BootstrapState::Failed,
            ..machine
        },
        (BootstrapState::Registering, BootstrapEvent::Registered) => Bootstrapper {
            state: BootstrapState::Completed,
            ..machine
        },
        _ => machine,
    }
}

/// What the caller is to do after an event.
pub open spec fn action_after(machine: Bootstrapper, event: BootstrapEvent) -> BootstrapAction {
    match (machine.state, event) {
        (BootstrapState::Idle, BootstrapEvent::Start) => BootstrapAction::ProbeTools,
        (BootstrapState::Probing, BootstrapEvent::ToolsProbed { ffmpeg, ffprobe }) => {
            if ffmpeg && ffprobe {
                BootstrapAction::Nothing
            } else {
                BootstrapAction::CheckLocalInstall
            }
        },
        (BootstrapState::Probing, BootstrapEvent::LocalInstallChecked { found }) => {
            if found {
                BootstrapAction::Register
            } else {
                BootstrapAction::Download
            }
        },
        (BootstrapState::Downloading, BootstrapEvent::DownloadFinished) => BootstrapAction::Extract,
        (BootstrapState::Downloading, BootstrapEvent::DownloadFailed) => BootstrapAction::Fail(
            BootstrapError::Download,
        ),
        (BootstrapState::Extracting, BootstrapEvent::Extracted) => BootstrapAction::Register,
        (BootstrapState::Extracting, BootstrapEvent::ExtractionFailed) => BootstrapAction::Fail(
            BootstrapError::Extraction,
        ),
        (BootstrapState::Registering, BootstrapEvent::Registered) => {
            if machine.archive_fetched {
                BootstrapAction::DeleteArchive
            } else {
                BootstrapAction::Nothing
            }
        },
        _ => BootstrapAction::Nothing,
    }
}

/// The status after an event. A download starts at nothing. A chunk sets the
/// share where the server has announced a length above zero, and leaves the
/// status as it is where it has not. A failure leaves the status as it is.
pub open spec fn status_after(
    machine: Bootstrapper,
    event: BootstrapEvent,
    status: DependencyStatus,
) -> DependencyStatus {
    match (machine.state, event) {
        (BootstrapState::Probing, BootstrapEvent::ToolsProbed { ffmpeg, ffprobe }) => {
            if ffmpeg && ffprobe {
                DependencyStatus { completed: true, ..status }
            } else {
                status
            }
        },
        (BootstrapState::Probing, BootstrapEvent::LocalInstallChecked { found }) => {
            if found {
                status
            } else {
                DependencyStatus {
                    percent_downloaded: 0,
                    status: "Downloading..."@,
                    completed: false,
                }
            }
        },
        (BootstrapState::Downloading, BootstrapEvent::ChunkReceived { bytes }) => {
            match machine.total_bytes {
                Some(total) => if total > 0 {
                    DependencyStatus {
                        percent_downloaded: download_share(
                            machine_after(machine, event).downloaded_bytes as nat,
                            total as nat,
                        ),
                        status: "Downloading..."@,
                        completed: false,
                    }
                } else {
                    status
                },
                None => status,
            }
        },
        (BootstrapState::Downloading, BootstrapEvent::DownloadFinished) => DependencyStatus {
            percent_downloaded: whole_share(),
            status: "Extracting..."@,
            completed: false,
        },
        (BootstrapState::Registering, BootstrapEvent::Registered) => DependencyStatus {
            percent_downloaded: whole_share(),
            status: "Finalizing..."@,
            completed: true,
        },
        _ => status,
    }
}

/// Once both tools can be run, the machine is done and no download happens:
/// from probing, the report that both tools are there leads to `Completed`
/// with nothing to do and the status marked completed, and from `Completed`
/// no event leads anywhere or asks for anything.
pub proof fn lemma_tools_present_completes(
    machine: Bootstrapper,
    later: BootstrapEvent,
    status: DependencyStatus,
)
    requires
        machine.state == BootstrapState::Probing,
    ensures
        ({
            let probed = BootstrapEvent::ToolsProbed { ffmpeg: true, ffprobe: true };
            let done = machine_after(machine, probed);
            &&& done.state == BootstrapState::Completed
            &&& action_after(machine, probed) == BootstrapAction::Nothing
            &&& status_after(machine, probed, status).completed
            &&& machine_after(done, later) == done
            &&& action_after(done, later) == BootstrapAction::Nothing
        }),
{
}

/// A download is asked for in one case only: while probing, when the tools
/// are missing and no earlier extraction was found. A failure comes only out
/// of downloading or extracting. `Completed` and `Failed` are final.
pub proof fn lemma_bootstrap_order(machine: Bootstrapper, event: BootstrapEvent)
    ensures
        action_after(machine, event) == BootstrapAction::Download ==> machine.state
            == BootstrapState::Probing && event == (BootstrapEvent::LocalInstallChecked {
            found: false,
        }),
        machine_after(machine, event).state == BootstrapState::Failed ==> machine.state
            == BootstrapState::Failed || machine.state == BootstrapState::Downloading
            || machine.state == BootstrapState::Extracting,
        machine.state == BootstrapState::Completed || machine.state == BootstrapState::Failed
            ==> machine_after(machine, event) == machine && action_after(machine, event)
            == BootstrapAction::Nothing,
        machine_after(machine, event).architecture == machine.architecture,
{
}

/// The machine after a run of events.
pub open spec fn machine_after_all(
    machine: Bootstrapper,
    events: Seq<BootstrapEvent>,
) -> Bootstrapper
    decreases events.len(),
{
    if events.len() == 0 {
        machine
    } else {
        machine_after(machine_after_all(machine, events.drop_last()), events.last())
    }
}

/// A machine that is done stays done: whatever events follow, it does not
/// move and asks for nothing, least of all for a download.
pub proof fn lemma_done_is_done(machine: Bootstrapper, events: Seq<BootstrapEvent>)
    requires
        machine.state == BootstrapState::Completed || machine.state == BootstrapState::Failed,
    ensures
        machine_after_all(machine, events) == machine,
        forall|i: int|
            0 <= i < events.len() ==> action_after(
                machine_after_all(machine, events.take(i)),
                #[trigger] events[i],
            ) == BootstrapAction::Nothing,
    decreases events.len(),
{
    if events.len() > 0 {
        lemma_done_is_done(machine, events.drop_last());
        assert forall|i: int| 0 <= i < events.len() implies action_after(
            machine_after_all(machine, events.take(i)),
            #[trigger] events[i],
        ) == BootstrapAction::Nothing by {
            lemma_done_is_done(machine, events.take(i));
        }
    }
}

/// The architecture that a name stands for: `x86_64` and `aarch64` are
/// supported, no other.
pub fn architecture_from_name(name: &str) -> (result: Result<Architecture, ConfigurationError>)
    ensures
        match architecture_named(name@) {
            Some(architecture) => result == Ok::<Architecture, ConfigurationError>(architecture),
            None => result == Err::<Architecture, ConfigurationError>(
                ConfigurationError::UnsupportedArchitecture,
            ),
        },
{
    if same_str(name, "x86_64") {
        Ok(Architecture::X86_64)
    } else if same_str(name, "aarch64") {
        Ok(Architecture::Aarch64)
    } else {
        Err(ConfigurationError::UnsupportedArchitecture)
    }
}

/// Where the archive for an architecture is fetched from.
pub fn download_url(architecture: Architecture) -> (url: &'static str)
    ensures
        url@ == archive_url(architecture),
{
    match architecture {
        Architecture::X86_64 => FFMPEG_WIN_X86_ZIP_URL,
        Architecture::Aarch64 => FFMPEG_WIN_ARM64_ZIP_URL,
    }
}

/// The share of the archive that has arrived, in hundredths of a percent.
pub fn share_downloaded(downloaded: u64, total: u64) -> (share: u64)
    requires
        total > 0,
    ensures
        share == download_share(downloaded as nat, total as nat),
{
    let scaled: u128 = downloaded as u128 * 10_000;
    let share: u128 = scaled / (total as u128);
    if share > u64::MAX as u128 {
        u64::MAX
    } else {
        share as u64
    }
}

impl DependenciesSetUpInfo {
    /// The status before anything has happened.
    pub fn new() -> (info: DependenciesSetUpInfo)
        ensures
            info@ == (DependencyStatus {
                percent_downloaded: 0,
                status: Seq::<char>::empty(),
                completed: false,
            }),
    {
        DependenciesSetUpInfo { percent_downloaded: 0, status: String::new(), completed: false }
    }
}

/// Writes the status: the text, whether the bootstrap is completed, and the
/// share downloaded in hundredths of a percent.
pub fn update_ffmpeg_download_status(
    info: &mut DependenciesSetUpInfo,
    status: &str,
    completed: bool,
    percent_downloaded: u64,
)
    ensures
        final(info)@ == (DependencyStatus {
            percent_downloaded: percent_downloaded as nat,
            status: status@,
            completed,
        }),
{
    info.percent_downloaded = percent_downloaded;
    info.status = String::from_str(status);
    info.completed = completed;
}

/// A copy of the status, for a poller.
pub fn get_depencencies_download_info(info: &DependenciesSetUpInfo) -> (copy:
    DependenciesSetUpInfo)
    ensures
        copy@ == info@,
{
    DependenciesSetUpInfo {
        percent_downloaded: info.percent_downloaded,
        status: info.status.clone(),
        completed: info.completed,
    }
}

impl Bootstrapper {
    /// A bootstrapper for the named processor architecture, in `Idle`. An
    /// architecture without an archive is refused before anything is run.
    pub fn new(architecture_name: &str) -> (result: Result<Bootstrapper, ConfigurationError>)
        ensures
            match architecture_named(architecture_name@) {
                Some(architecture) => result == Ok::<Bootstrapper, ConfigurationError>(
                    initial_machine(architecture),
                ),
                None => result == Err::<Bootstrapper, ConfigurationError>(
                    ConfigurationError::UnsupportedArchitecture,
                ),
            },
    {
        match architecture_from_name(architecture_name) {
            Ok(architecture) => Ok(
                Bootstrapper {
                    state: BootstrapState::Idle,
                    architecture,
                    downloaded_bytes: 0,
                    total_bytes: None,
                    archive_fetched: false,
                },
            ),
            Err(error) => Err(error),
        }
    }

    /// Takes an event: moves to the next state, updates the status, and
    /// returns what the caller is to do next.
    pub fn step(&mut self, info: &mut DependenciesSetUpInfo, event: BootstrapEvent) -> (action:
        BootstrapAction)
        ensures
            *final(self) == machine_after(*old(self), event),
            action == action_after(*old(self), event),
            final(info)@ == status_after(*old(self), event, old(info)@),
    {
        match (self.state, event) {
            (BootstrapState::Idle, BootstrapEvent::Start) => {
                self.state = BootstrapState::Probing;
                BootstrapAction::ProbeTools
            },
            (BootstrapState::Probing, BootstrapEvent::ToolsProbed { ffmpeg, ffprobe }) => {
                if ffmpeg && ffprobe {
                    self.state = BootstrapState::Completed;
                    info.completed = true;
                    BootstrapAction::Nothing
                } else {
                    BootstrapAction::CheckLocalInstall
                }
            },
            (BootstrapState::Probing, BootstrapEvent::LocalInstallChecked { found }) => {
                if found {
                    self.state = BootstrapState::Registering;
                    BootstrapAction::Register
                } else {
                    self.state = BootstrapState::Downloading;
                    self.downloaded_bytes = 0;
                    self.total_bytes = None;
                    update_ffmpeg_download_status(info, "Downloading...", false, 0);
                    BootstrapAction::Download
                }
            },
            (BootstrapState::Downloading, BootstrapEvent::DownloadStarted { total_bytes }) => {
                self.total_bytes = total_bytes;
                BootstrapAction::Nothing
            },
            (BootstrapState::Downloading, BootstrapEvent::ChunkReceived { bytes }) => {
                self.downloaded_bytes = match self.downloaded_bytes.checked_add(bytes) {
                    Some(sum) => sum,
                    None => u64::MAX,
                };
                match self.total_bytes {
                    Some(total) => {
                        if total > 0 {
                            let share = share_downloaded(self.downloaded_bytes, total);
                            update_ffmpeg_download_status(info, "Downloading...", false, share);
                        }
                    },
                    None => {},
                }
                BootstrapAction::Nothing
            },
            (BootstrapState::Downloading, BootstrapEvent::DownloadFinished) => {
                self.state = BootstrapState::Extracting;
                self.archive_fetched = true;
                update_ffmpeg_download_status(info, "Extracting...", false, 10_000);
                BootstrapAction::Extract
            },
            (BootstrapState::Downloading, BootstrapEvent::DownloadFailed) => {
                self.state = BootstrapState::Failed;
                BootstrapAction::Fail(BootstrapError::Download)
            },
            (BootstrapState::Extracting, BootstrapEvent::Extracted) => {
                self.state = BootstrapState::Registering;
                BootstrapAction::Register
            },
            (BootstrapState::Extracting, BootstrapEvent::ExtractionFailed) => {
                self.state = BootstrapState::Failed;
                BootstrapAction::Fail(BootstrapError::Extraction)
            },
            (BootstrapState::Registering, BootstrapEvent::Registered) => {
                self.state = BootstrapState::Completed;
                update_ffmpeg_download_status(info, "Finalizing...", true, 10_000);
                if self.archive_fetched {
                    BootstrapAction::DeleteArchive
                } else {
                    BootstrapAction::Nothing
                }
            },
            _ => BootstrapAction::Nothing,
        }
    }
}

/// The file name of the temporary archive: the folder name, a fresh random
/// identifier, and the extension `zip`.
pub fn archive_file_name() -> (name: String)
    ensures
        exists|id: Seq<char>|
            is_uuid_text(id) && name@ == archive_name_with(id),
{
    let id = new_uuid_text();
    archive_file_name_with(id.as_str())
}

/// The file name of the temporary archive with the given identifier.
pub open spec fn archive_name_with(id: Seq<char>) -> Seq<char> {
    FFMPEG_FOLDER_NAME@ + "_"@ + id + ".zip"@
}

/// The file name of the temporary archive with the given identifier.
pub fn archive_file_name_with(id: &str) -> (name: String)
    ensures
        name@ == archive_name_with(id@),
{
    let mut name = String::from_str(FFMPEG_FOLDER_NAME);
    name.append("_");
    name.append(id);
    name.append(".zip");
    name
}

/// From `from` to `to` stands one entry of the search path: it is bounded
/// by separators or the ends of the path and holds no separator.
pub open spec fn is_entry_at(path: Seq<char>, from: int, to: int) -> bool {
    &&& 0 <= from <= to <= path.len()
    &&& from == 0 || path[from - 1] == ';'
    &&& to == path.len() || path[to] == ';'
    &&& forall|k: int| from <= k < to ==> path[k] != ';'
}

/// `entry` is one of the entries of the search path, which are separated by
/// semicolons.
pub open spec fn has_entry(path: Seq<char>, entry: Seq<char>) -> bool {
    exists|from: int, to: int| #[trigger]
        is_entry_at(path, from, to) && path.subrange(from, to) == entry
}

/// The search path with `entry` put in front.
pub open spec fn with_entry_in_front(path: Seq<char>, entry: Seq<char>) -> Seq<char> {
    if path.len() == 0 {
        entry
    } else {
        entry + seq![';'] + path
    }
}

/// Whether `entry` is one of the entries of the search path.
pub fn path_has_entry(path: &Vec<char>, entry: &Vec<char>) -> (found: bool)
    ensures
        found == has_entry(path@, entry@),
{
    let mut from: usize = 0;
    loop
        invariant
            from <= path.len(),
            from == 0 || path@[from - 1] == ';',
            forall|a: int, b: int|
                0 <= a < from && #[trigger] is_entry_at(path@, a, b) ==> path@.subrange(a, b)
                    != entry@,
        decreases path.len() - from,
    {
        let to = find_from(path, from, ';');
        proof {
            lemma_first_index_of(path@.skip(from as int), ';');
            assert forall|k: int| from <= k < to implies path@[k] != ';' by {
                assert(path@.skip(from as int)[k - from] == path@[k]);
            }
            if to < path.len() {
                assert(path@.skip(from as int)[to - from] == path@[to as int]);
            }
            assert(is_entry_at(path@, from as int, to as int));
        }
        let part = slice_of(path, from, to);
        if same_text(&part, entry) {
            return true;
        }
        proof {
            assert forall|a: int, b: int|
                0 <= a < to + 1 && #[trigger] is_entry_at(path@, a, b) implies path@.subrange(a, b)
                != entry@ by {
                if a >= from {
                    if a > from {
                        assert(false);
                    }
                    if b < to {
                        assert(false);
                    }
                    if b > to {
                        assert(false);
                    }
                }
            }
        }
        if to == path.len() {
            proof {
                assert forall|a: int, b: int| #[trigger]
                    is_entry_at(path@, a, b) implies path@.subrange(a, b) != entry@ by {}
            }
            return false;
        }
        from = to + 1;
    }
}

/// Puts the directory of the tools on the search path: returns the new
/// search path, with `new_path` in front, or `None` where `new_path` is
/// already one of its entries and nothing is to change.
pub fn add_ffmpeg_to_app_env(current_path: &str, new_path: &str) -> (updated: Option<String>)
    ensures
        match updated {
            None => has_entry(current_path@, new_path@),
            Some(path) => !has_entry(current_path@, new_path@) && path@ == with_entry_in_front(
                current_path@,
                new_path@,
            ),
        },
{
    let path = chars_of(current_path);
    let entry = chars_of(new_path);
    if path_has_entry(&path, &entry) {
        return None;
    }
    let mut updated = String::from_str(new_path);
    if path.len() > 0 {
        updated.append(";");
        updated.append(current_path);
        proof {
            reveal_strlit(";");
        }
    }
    Some(updated)
}

/// Putting a directory on the search path a second time changes nothing:
/// after it has been put in front, it is one of the entries. This holds of a
/// directory whose name has no semicolon in it.
pub proof fn lemma_registering_twice(path: Seq<char>, entry: Seq<char>)
    requires
        !entry.contains(';'),
    ensures
        has_entry(with_entry_in_front(path, entry), entry),
{
    let updated = with_entry_in_front(path, entry);
    assert forall|k: int| 0 <= k < entry.len() implies updated[k] != ';' by {
        assert(entry.contains(entry[k]));
    }
    assert(is_entry_at(updated, 0, entry.len() as int));
    assert(updated.subrange(0, entry.len() as int) =~= entry);
}

} // verus!
