use videocrop::bootstrap::{
    add_ffmpeg_to_app_env, architecture_from_name, archive_file_name, archive_file_name_with,
    download_url, get_depencencies_download_info, share_downloaded, update_ffmpeg_download_status,
    Architecture, BootstrapAction, BootstrapError, BootstrapEvent, BootstrapState, Bootstrapper,
    ConfigurationError, DependenciesSetUpInfo, CREATE_NO_WINDOW, FFMPEG_FOLDER_NAME,
    FFMPEG_WIN_ARM64_ZIP_URL, FFMPEG_WIN_X86_ZIP_URL,
};

fn machine() -> (Bootstrapper, DependenciesSetUpInfo) {
    (Bootstrapper::new("x86_64").unwrap(), DependenciesSetUpInfo::new())
}

fn status(info: &DependenciesSetUpInfo) -> (u64, &str, bool) {
    (info.percent_downloaded, info.status.as_str(), info.completed)
}

fn downloading() -> (Bootstrapper, DependenciesSetUpInfo) {
    let (mut machine, mut info) = machine();
    machine.step(&mut info, BootstrapEvent::Start);
    machine.step(&mut info, BootstrapEvent::ToolsProbed { ffmpeg: false, ffprobe: false });
    machine.step(&mut info, BootstrapEvent::LocalInstallChecked { found: false });
    (machine, info)
}

#[test]
fn constants() {
    assert_eq!(CREATE_NO_WINDOW, 0x0800_0000);
    assert_eq!(FFMPEG_FOLDER_NAME, "ffmpeg_Videocrop");
    assert!(FFMPEG_WIN_X86_ZIP_URL.ends_with("/ffmpeg-win-x86_64.zip"));
    assert!(FFMPEG_WIN_ARM64_ZIP_URL.ends_with("/ffmpeg-win-arm64.zip"));
}

#[test]
fn archive_by_architecture() {
    assert_eq!(architecture_from_name("x86_64"), Ok(Architecture::X86_64));
    assert_eq!(architecture_from_name("aarch64"), Ok(Architecture::Aarch64));
    assert_eq!(download_url(Architecture::X86_64), FFMPEG_WIN_X86_ZIP_URL);
    assert_eq!(download_url(Architecture::Aarch64), FFMPEG_WIN_ARM64_ZIP_URL);
}

#[test]
fn unsupported_architecture_is_refused() {
    assert_eq!(architecture_from_name("x86"), Err(ConfigurationError::UnsupportedArchitecture));
    assert_eq!(architecture_from_name(""), Err(ConfigurationError::UnsupportedArchitecture));
    assert_eq!(Bootstrapper::new("riscv64"), Err(ConfigurationError::UnsupportedArchitecture));
    assert_eq!(Bootstrapper::new("X86_64"), Err(ConfigurationError::UnsupportedArchitecture));
}

#[test]
fn starts_idle_and_probes_first() {
    let (mut machine, mut info) = machine();
    assert_eq!(machine.state, BootstrapState::Idle);
    assert_eq!(machine.architecture, Architecture::X86_64);
    assert_eq!(status(&info), (0, "", false));
    assert_eq!(machine.step(&mut info, BootstrapEvent::Start), BootstrapAction::ProbeTools);
    assert_eq!(machine.state, BootstrapState::Probing);
    assert_eq!(status(&info), (0, "", false));
}

#[test]
fn tools_present_complete_at_once() {
    let (mut machine, mut info) = machine();
    machine.step(&mut info, BootstrapEvent::Start);
    let action =
        machine.step(&mut info, BootstrapEvent::ToolsProbed { ffmpeg: true, ffprobe: true });
    assert_eq!(action, BootstrapAction::Nothing);
    assert_eq!(machine.state, BootstrapState::Completed);
    assert!(!machine.archive_fetched);
    assert_eq!(status(&info), (0, "", true));
    for event in [
        BootstrapEvent::Start,
        BootstrapEvent::ToolsProbed { ffmpeg: false, ffprobe: false },
        BootstrapEvent::LocalInstallChecked { found: false },
        BootstrapEvent::DownloadStarted { total_bytes: Some(5) },
        BootstrapEvent::ChunkReceived { bytes: 5 },
        BootstrapEvent::DownloadFinished,
        BootstrapEvent::DownloadFailed,
        BootstrapEvent::Extracted,
        BootstrapEvent::ExtractionFailed,
        BootstrapEvent::Registered,
    ] {
        assert_eq!(machine.step(&mut info, event), BootstrapAction::Nothing);
        assert_eq!(machine.state, BootstrapState::Completed);
        assert_eq!(status(&info), (0, "", true));
    }
}

#[test]
fn one_missing_tool_is_missing_tools() {
    for (ffmpeg, ffprobe) in [(false, false), (true, false), (false, true)] {
        let (mut machine, mut info) = machine();
        machine.step(&mut info, BootstrapEvent::Start);
        let action = machine.step(&mut info, BootstrapEvent::ToolsProbed { ffmpeg, ffprobe });
        assert_eq!(action, BootstrapAction::CheckLocalInstall);
        assert_eq!(machine.state, BootstrapState::Probing);
        assert_eq!(status(&info), (0, "", false));
    }
}

#[test]
fn earlier_extraction_skips_the_download() {
    let (mut machine, mut info) = machine();
    machine.step(&mut info, BootstrapEvent::Start);
    machine.step(&mut info, BootstrapEvent::ToolsProbed { ffmpeg: false, ffprobe: true });
    let action = machine.step(&mut info, BootstrapEvent::LocalInstallChecked { found: true });
    assert_eq!(action, BootstrapAction::Register);
    assert_eq!(machine.state, BootstrapState::Registering);
    let action = machine.step(&mut info, BootstrapEvent::Registered);
    assert_eq!(action, BootstrapAction::Nothing);
    assert_eq!(machine.state, BootstrapState::Completed);
    assert_eq!(status(&info), (10_000, "Finalizing...", true));
}

#[test]
fn download_extract_register() {
    let (mut machine, mut info) = downloading();
    assert_eq!(machine.state, BootstrapState::Downloading);
    assert_eq!(status(&info), (0, "Downloading...", false));
    let action =
        machine.step(&mut info, BootstrapEvent::DownloadStarted { total_bytes: Some(1000) });
    assert_eq!(action, BootstrapAction::Nothing);
    assert_eq!(machine.total_bytes, Some(1000));
    machine.step(&mut info, BootstrapEvent::ChunkReceived { bytes: 250 });
    assert_eq!(status(&info), (2_500, "Downloading...", false));
    machine.step(&mut info, BootstrapEvent::ChunkReceived { bytes: 123 });
    assert_eq!(machine.downloaded_bytes, 373);
    assert_eq!(status(&info), (3_730, "Downloading...", false));
    machine.step(&mut info, BootstrapEvent::ChunkReceived { bytes: 627 });
    assert_eq!(status(&info), (10_000, "Downloading...", false));
    assert_eq!(machine.step(&mut info, BootstrapEvent::DownloadFinished), BootstrapAction::Extract);
    assert_eq!(machine.state, BootstrapState::Extracting);
    assert_eq!(status(&info), (10_000, "Extracting...", false));
    assert_eq!(machine.step(&mut info, BootstrapEvent::Extracted), BootstrapAction::Register);
    assert_eq!(machine.state, BootstrapState::Registering);
    assert_eq!(status(&info), (10_000, "Extracting...", false));
    assert_eq!(machine.step(&mut info, BootstrapEvent::Registered), BootstrapAction::DeleteArchive);
    assert_eq!(machine.state, BootstrapState::Completed);
    assert_eq!(status(&info), (10_000, "Finalizing...", true));
}

#[test]
fn download_of_unknown_length_shows_no_share() {
    for total_bytes in [None, Some(0)] {
        let (mut machine, mut info) = downloading();
        machine.step(&mut info, BootstrapEvent::DownloadStarted { total_bytes });
        machine.step(&mut info, BootstrapEvent::ChunkReceived { bytes: 8192 });
        assert_eq!(machine.downloaded_bytes, 8192);
        assert_eq!(status(&info), (0, "Downloading...", false));
        machine.step(&mut info, BootstrapEvent::DownloadFinished);
        assert_eq!(status(&info), (10_000, "Extracting...", false));
    }
}

#[test]
fn failed_download_is_final() {
    let (mut machine, mut info) = downloading();
    machine.step(&mut info, BootstrapEvent::DownloadStarted { total_bytes: Some(1000) });
    machine.step(&mut info, BootstrapEvent::ChunkReceived { bytes: 100 });
    let action = machine.step(&mut info, BootstrapEvent::DownloadFailed);
    assert_eq!(action, BootstrapAction::Fail(BootstrapError::Download));
    assert_eq!(machine.state, BootstrapState::Failed);
    assert_eq!(status(&info), (1_000, "Downloading...", false));
    assert_eq!(machine.step(&mut info, BootstrapEvent::DownloadFinished), BootstrapAction::Nothing);
    assert_eq!(machine.step(&mut info, BootstrapEvent::Start), BootstrapAction::Nothing);
    assert_eq!(machine.state, BootstrapState::Failed);
    assert_eq!(status(&info), (1_000, "Downloading...", false));
}

#[test]
fn failed_extraction_is_final() {
    let (mut machine, mut info) = downloading();
    machine.step(&mut info, BootstrapEvent::DownloadFinished);
    let action = machine.step(&mut info, BootstrapEvent::ExtractionFailed);
    assert_eq!(action, BootstrapAction::Fail(BootstrapError::Extraction));
    assert_eq!(machine.state, BootstrapState::Failed);
    assert_eq!(status(&info), (10_000, "Extracting...", false));
    assert_eq!(machine.step(&mut info, BootstrapEvent::Extracted), BootstrapAction::Nothing);
    assert_eq!(machine.state, BootstrapState::Failed);
}

#[test]
fn events_out_of_turn_change_nothing() {
    let (mut machine, mut info) = machine();
    for event in [
        BootstrapEvent::ToolsProbed { ffmpeg: true, ffprobe: true },
        BootstrapEvent::LocalInstallChecked { found: false },
        BootstrapEvent::ChunkReceived { bytes: 5 },
        BootstrapEvent::DownloadFinished,
        BootstrapEvent::DownloadFailed,
        BootstrapEvent::ExtractionFailed,
        BootstrapEvent::Registered,
    ] {
        assert_eq!(machine.step(&mut info, event), BootstrapAction::Nothing);
        assert_eq!(machine, Bootstrapper::new("x86_64").unwrap());
        assert_eq!(status(&info), (0, "", false));
    }
    machine.step(&mut info, BootstrapEvent::Start);
    assert_eq!(machine.step(&mut info, BootstrapEvent::DownloadFailed), BootstrapAction::Nothing);
    assert_eq!(machine.step(&mut info, BootstrapEvent::Extracted), BootstrapAction::Nothing);
    assert_eq!(machine.state, BootstrapState::Probing);
}

#[test]
fn chunk_counter_does_not_overflow() {
    let (mut machine, mut info) = downloading();
    machine.step(&mut info, BootstrapEvent::DownloadStarted { total_bytes: Some(1) });
    machine.step(&mut info, BootstrapEvent::ChunkReceived { bytes: u64::MAX });
    machine.step(&mut info, BootstrapEvent::ChunkReceived { bytes: 7 });
    assert_eq!(machine.downloaded_bytes, u64::MAX);
    assert_eq!(info.percent_downloaded, u64::MAX);
}

#[test]
fn share_in_hundredths_of_a_percent() {
    assert_eq!(share_downloaded(0, 1000), 0);
    assert_eq!(share_downloaded(1, 3), 3_333);
    assert_eq!(share_downloaded(2, 3), 6_666);
    assert_eq!(share_downloaded(1000, 1000), 10_000);
    assert_eq!(share_downloaded(1500, 1000), 15_000);
    assert_eq!(share_downloaded(u64::MAX, u64::MAX), 10_000);
    assert_eq!(share_downloaded(u64::MAX, 1), u64::MAX);
}

#[test]
fn status_is_written_and_copied() {
    let mut info = DependenciesSetUpInfo::new();
    update_ffmpeg_download_status(&mut info, "Extracting...", false, 10_000);
    assert_eq!(status(&info), (10_000, "Extracting...", false));
    let copy = get_depencencies_download_info(&info);
    update_ffmpeg_download_status(&mut info, "Finalizing...", true, 10_000);
    assert_eq!(status(&copy), (10_000, "Extracting...", false));
    assert_eq!(status(&info), (10_000, "Finalizing...", true));
}

#[test]
fn archive_name() {
    assert_eq!(archive_file_name_with("abc"), "ffmpeg_Videocrop_abc.zip");
    let name = archive_file_name();
    assert!(name.starts_with("ffmpeg_Videocrop_"));
    assert!(name.ends_with(".zip"));
    assert_eq!(name.len(), "ffmpeg_Videocrop_".len() + 36 + ".zip".len());
    assert_eq!(name.matches('-').count(), 4);
    assert_ne!(archive_file_name(), name);
}

#[test]
fn directory_goes_in_front_of_the_search_path() {
    assert_eq!(
        add_ffmpeg_to_app_env("C:\\Windows;C:\\Tools", "C:\\Users\\me\\VideoCrop\\FFmpeg\\bin"),
        Some(String::from("C:\\Users\\me\\VideoCrop\\FFmpeg\\bin;C:\\Windows;C:\\Tools"))
    );
    assert_eq!(add_ffmpeg_to_app_env("", "C:\\bin"), Some(String::from("C:\\bin")));
    assert_eq!(
        add_ffmpeg_to_app_env("C:\\Windows;", "C:\\bin"),
        Some(String::from("C:\\bin;C:\\Windows;"))
    );
}

#[test]
fn directory_on_the_search_path_is_not_added_again() {
    assert_eq!(add_ffmpeg_to_app_env("C:\\bin", "C:\\bin"), None);
    assert_eq!(add_ffmpeg_to_app_env("C:\\bin;C:\\Windows", "C:\\bin"), None);
    assert_eq!(add_ffmpeg_to_app_env("C:\\Windows;C:\\bin", "C:\\bin"), None);
    assert_eq!(add_ffmpeg_to_app_env("C:\\Windows;C:\\bin;", "C:\\bin"), None);
    assert_eq!(add_ffmpeg_to_app_env("A;C:\\bin;B", "C:\\bin"), None);
    let once = add_ffmpeg_to_app_env("C:\\Windows", "C:\\bin").unwrap();
    assert_eq!(add_ffmpeg_to_app_env(&once, "C:\\bin"), None);
}

#[test]
fn part_of_an_entry_is_no_entry() {
    assert_eq!(
        add_ffmpeg_to_app_env("C:\\bin2;D:\\C:\\bin", "C:\\bin"),
        Some(String::from("C:\\bin;C:\\bin2;D:\\C:\\bin"))
    );
    assert_eq!(add_ffmpeg_to_app_env("C:\\BIN", "C:\\bin"), Some(String::from("C:\\bin;C:\\BIN")));
}

#[test]
fn empty_entries() {
    assert_eq!(add_ffmpeg_to_app_env("", ""), None);
    assert_eq!(add_ffmpeg_to_app_env("A;", ""), None);
    assert_eq!(add_ffmpeg_to_app_env("A;;B", ""), None);
    assert_eq!(add_ffmpeg_to_app_env("A;B", ""), Some(String::from(";A;B")));
}
