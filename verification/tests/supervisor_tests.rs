use std::io::Write;

use openmusic::midi::{MidiPort, connect_input_message, connect_output_message, label_ports};
use openmusic::platform::{ArchiveKind, Cpu, Platform, archive_kind, asset_pattern, binary_name};
use openmusic::playback::{PlaybackEvent, PlaybackState, playback_transition};
use openmusic::supervisor::{CLIProxyAPIManager, DiskState, HandleProbe, ReleaseAsset};
use openmusic::supervisor::{StartAction, apply_download, check_update, choose_release};
use openmusic::supervisor::{default_config_text, extract_binary, parse_release, start_decision};
use openmusic::supervisor::{stop_actions, version_from_output};

#[test]
fn platform_names_and_patterns() {
    assert_eq!(binary_name(Platform::Windows), "cliproxyapi.exe");
    assert_eq!(binary_name(Platform::MacOs), "cliproxyapi-darwin");
    assert_eq!(binary_name(Platform::Linux), "cliproxyapi-linux");
    assert_eq!(asset_pattern(Platform::Windows, Cpu::Amd64), "windows_amd64.zip");
    assert_eq!(asset_pattern(Platform::MacOs, Cpu::Arm64), "darwin_arm64.tar.gz");
    assert_eq!(asset_pattern(Platform::Linux, Cpu::Amd64), "linux_amd64.tar.gz");
    assert_eq!(archive_kind(Platform::Windows), ArchiveKind::Zip);
    assert_eq!(archive_kind(Platform::Linux), ArchiveKind::TarGz);
}

#[test]
fn manager_paths_and_url() {
    let m = CLIProxyAPIManager::new_with_dir("/data", Platform::Linux, 8080);
    assert_eq!(m.binary_path, "/data/openmusic/cliproxyapi/cliproxyapi-linux");
    assert_eq!(m.config_path, "/data/openmusic/cliproxyapi/config.yaml");
    assert_eq!(m.get_url(), "http://localhost:8080");
    let m = CLIProxyAPIManager::new_with_dir("/data", Platform::Windows, 9123);
    assert_eq!(m.binary_path, "/data/openmusic/cliproxyapi/cliproxyapi.exe");
    assert_eq!(m.get_url(), "http://localhost:9123");
}

#[test]
fn release_selection_skips_checksums_and_other_platforms() {
    let assets = vec![
        ReleaseAsset {
            name: "cliproxyapi_1.2_linux_amd64.tar.gz.sha256".to_string(),
            url: "https://example.invalid/sum".to_string(),
        },
        ReleaseAsset {
            name: "cliproxyapi_1.2_darwin_amd64.tar.gz".to_string(),
            url: "https://example.invalid/mac".to_string(),
        },
        ReleaseAsset {
            name: "cliproxyapi_1.2_linux_amd64.tar.gz".to_string(),
            url: "https://example.invalid/linux".to_string(),
        },
    ];
    let (tag, url) = choose_release("v1.2".to_string(), &assets, "linux_amd64.tar.gz")
        .expect("a matching asset exists");
    assert_eq!(tag, "v1.2");
    assert_eq!(url, "https://example.invalid/linux");

    let err = choose_release("v1.2".to_string(), &assets, "windows_arm64.zip")
        .expect_err("no such asset");
    assert_eq!(err, "No binary found for platform: windows_arm64.zip");
}

#[test]
fn release_document_parses() {
    let text = "{\"tag_name\":\"v9.9\",\"assets\":[\
                {\"name\":\"a_linux_amd64.tar.gz\",\"browser_download_url\":\"u1\"}]}";
    let (tag, assets) = parse_release(text).expect("well-formed release");
    assert_eq!(tag, "v9.9");
    assert_eq!(assets.len(), 1);
    assert_eq!(assets[0].name, "a_linux_amd64.tar.gz");
    assert_eq!(assets[0].url, "u1");
    assert!(parse_release("{\"assets\":[]}").is_err());
}

#[test]
fn zip_archive_yields_the_executable() {
    let mut w = zip::ZipWriter::new(std::io::Cursor::new(Vec::new()));
    let options = zip::write::SimpleFileOptions::default();
    w.start_file("README.txt", options).unwrap();
    w.write_all(b"docs").unwrap();
    w.start_file("cliproxyapi.exe", options).unwrap();
    w.write_all(b"BINARY-BYTES").unwrap();
    let data = w.finish().unwrap().into_inner();

    let got = extract_binary(&data, Platform::Windows).expect("archive decodes");
    assert_eq!(got.as_deref(), Some(b"BINARY-BYTES".as_slice()));

    let err = extract_binary(b"not a zip".to_vec().as_ref(), Platform::Windows);
    assert!(err.is_err());
}

#[test]
fn tar_gz_archive_yields_the_executable() {
    let mut tar_bytes = Vec::new();
    {
        let mut builder = tar::Builder::new(&mut tar_bytes);
        let mut header = tar::Header::new_gnu();
        header.set_size(5);
        header.set_cksum();
        builder.append_data(&mut header, "pkg/README", b"hello".as_slice()).unwrap();
        let mut header = tar::Header::new_gnu();
        header.set_size(9);
        header.set_cksum();
        builder.append_data(&mut header, "pkg/CLIProxyAPI", b"SERVERBIN".as_slice()).unwrap();
        builder.finish().unwrap();
    }
    let mut enc = flate2::write::GzEncoder::new(Vec::new(), flate2::Compression::default());
    enc.write_all(&tar_bytes).unwrap();
    let data = enc.finish().unwrap();

    let got = extract_binary(&data, Platform::Linux).expect("archive decodes");
    assert_eq!(got.as_deref(), Some(b"SERVERBIN".as_slice()));

    // An archive without the server binary decodes to nothing.
    let mut enc = flate2::write::GzEncoder::new(Vec::new(), flate2::Compression::default());
    let mut builder = tar::Builder::new(Vec::new());
    let mut header = tar::Header::new_gnu();
    header.set_size(1);
    header.set_cksum();
    builder.append_data(&mut header, "other", b"x".as_slice()).unwrap();
    enc.write_all(&builder.into_inner().unwrap()).unwrap();
    let data = enc.finish().unwrap();
    let got = extract_binary(&data, Platform::Linux).expect("archive decodes");
    assert!(got.is_none());
}

#[test]
fn config_text_is_exact() {
    assert_eq!(
        default_config_text(8080),
        "# CLIProxyAPI Configuration for OpenMusic\n\
         host: 127.0.0.1\n\
         port: 8080\n\
         log-level: info\n\
         auth-dir: ~/.openmusic-cliproxyapi\n\
         \n\
         # Add your OAuth accounts in auth-dir\n\
         # See: https://help.router-for.me/\n"
    );
}

#[test]
fn download_rewrites_binary_but_never_config() {
    let mut disk = DiskState { binary: None, config: None };
    apply_download(&mut disk, b"v1".to_vec(), 8080);
    assert_eq!(disk.binary.as_deref(), Some(b"v1".as_slice()));
    let config_after_first = disk.config.clone().expect("config written once");
    assert_eq!(config_after_first, default_config_text(8080));

    let mut edited = disk;
    edited.config = Some("# hand-edited\n".to_string());
    apply_download(&mut edited, b"v2".to_vec(), 8080);
    assert_eq!(edited.binary.as_deref(), Some(b"v2".as_slice()));
    assert_eq!(edited.config.as_deref(), Some("# hand-edited\n"));
}

#[test]
fn start_is_idempotent_while_the_process_lives() {
    let first = start_decision(true, HandleProbe::Absent).expect("installed");
    assert_eq!(first, StartAction::Spawn);
    let second = start_decision(true, HandleProbe::Running).expect("installed");
    assert_eq!(second, StartAction::AlreadyRunning);
    let after_exit = start_decision(true, HandleProbe::Exited).expect("installed");
    assert_eq!(after_exit, StartAction::Spawn);
    let err = start_decision(false, HandleProbe::Absent).expect_err("not installed");
    assert_eq!(err, "CLIProxyAPI not installed. Call download() first.");
}

#[test]
fn stop_always_plans_the_orphan_sweep() {
    assert_eq!(stop_actions(true), (true, true));
    assert_eq!(stop_actions(false), (false, true));
}

#[test]
fn update_check_reports_only_a_differing_version() {
    assert_eq!(check_update(Some("v1.0".to_string()), "v1.1").as_deref(), Some("v1.1"));
    assert_eq!(check_update(Some("v1.1".to_string()), "v1.1"), None);
    assert_eq!(check_update(None, "v1.1"), None);
}

#[test]
fn version_output_is_trimmed() {
    assert_eq!(version_from_output(Some("  v3.2.1\n".to_string())).as_deref(), Some("v3.2.1"));
    // The full Unicode whitespace set is stripped, from both ends only.
    assert_eq!(
        version_from_output(Some("\u{a0}\tv 3\u{3000}\r\n".to_string())).as_deref(),
        Some("v 3")
    );
    assert_eq!(version_from_output(None), None);
}

#[test]
fn playback_state_machine() {
    assert_eq!(PlaybackState::default(), PlaybackState::Stopped);
    let s = playback_transition(PlaybackState::Stopped, PlaybackEvent::PlayStarted);
    assert_eq!(s, PlaybackState::Playing);
    let s = playback_transition(s, PlaybackEvent::Pause);
    assert_eq!(s, PlaybackState::Paused);
    let s = playback_transition(s, PlaybackEvent::VolumeChanged);
    assert_eq!(s, PlaybackState::Paused);
    let s = playback_transition(s, PlaybackEvent::Resume);
    assert_eq!(s, PlaybackState::Playing);
    assert_eq!(playback_transition(s, PlaybackEvent::Stop), PlaybackState::Stopped);
    assert_eq!(
        playback_transition(PlaybackState::Playing, PlaybackEvent::PlayFailed),
        PlaybackState::Stopped
    );
}

#[test]
fn midi_ports_are_labelled_and_bounds_checked() {
    let names = vec![Some("Synth".to_string()), None];
    let ports = label_ports(&names);
    assert_eq!(ports.len(), 2);
    assert_eq!(ports[0].index, 0);
    assert_eq!(ports[0].name, "Synth");
    assert_eq!(ports[1].index, 1);
    assert_eq!(ports[1].name, "Unknown Port 1");

    let got = connect_input_message(0, &ports).expect("in range");
    assert_eq!(got, "Connected to MIDI input port: Synth");
    let got = connect_output_message(1, &ports).expect("in range");
    assert_eq!(got, "Connected to MIDI output port: Unknown Port 1");
    let err = connect_input_message(2, &ports).expect_err("out of range");
    assert_eq!(err, "Invalid port index: 2");
    let free: Vec<MidiPort> = Vec::new();
    assert!(connect_output_message(0, &free).is_err());
}
