use std::io::Write;

use ffbins_rs::download::DownloadStatus;
use ffbins_rs::error::Error;
use ffbins_rs::extract::{ArchiveEntry, ExtractorProgress};
use ffbins_rs::progress::Percent;
use ffbins_rs::sources::{Arch, Info, Os, Platform, Release};
use ffbins_rs::{Binary, FFbins, InstallAction, InstallEvent, InstallProgress, Options, State, Versions};

fn options() -> Options {
    Options {
        dest: "work/dest".to_string(),
        temp: "work/temp".to_string(),
        binary: Binary::FFmpeg,
        version: Versions::V7_1,
    }
}

fn windows() -> Platform {
    Platform { os: Os::Windows, arch: Arch::X86_64 }
}

fn installer() -> FFbins {
    let mut installer = FFbins::new(options(), windows());
    installer.init();
    installer
}

fn listing() -> Release {
    Release::Listing(vec![
        Info { url: "https://h/dl/ffmpeg-n7.1-latest-linux64-lgpl-7.1.tar.xz".to_string(), size: 10 },
        Info { url: "https://h/dl/ffmpeg-n7.1-latest-win64-lgpl-7.1.zip".to_string(), size: 20 },
    ])
}

fn archive() -> Vec<u8> {
    let mut writer = zip::ZipWriter::new(std::io::Cursor::new(Vec::new()));
    let options = zip::write::SimpleFileOptions::default();
    writer.start_file("ffmpeg", options).unwrap();
    writer.write_all(b"binary").unwrap();
    writer.finish().unwrap().into_inner()
}

fn out_of_order(state: &str) -> Error {
    Error::NotInitialized(state.to_string())
}

#[test]
fn to_string_names_each_state() {
    assert_eq!(State::NotReady.to_string(), "not ready");
    assert_eq!(State::Downloading.to_string(), "downloading");
    assert_eq!(State::Downloaded.to_string(), "downloaded");
    assert_eq!(State::Extracting.to_string(), "extracting");
    assert_eq!(State::Extracted.to_string(), "extracted");
    assert_eq!(State::Ready.to_string(), "ready");
}

#[test]
fn new_installer_is_not_ready() {
    let installer = FFbins::new(options(), windows());
    assert_eq!(installer.state(), State::NotReady);
    assert!(!installer.is_initialized());
    assert_eq!(installer.binary_path(), "");
    assert_eq!(installer.dest(), "work/dest");
    assert_eq!(installer.temp(), "work/temp");
}

#[test]
fn init_works_out_the_binary_path() {
    let mut installer = FFbins::new(options(), windows());
    installer.init();
    assert!(installer.is_initialized());
    assert_eq!(installer.binary_path(), "work/dest/ffmpeg");
    assert_eq!(installer.state(), State::NotReady);
    installer.init();
    assert_eq!(installer.binary_path(), "work/dest/ffmpeg");
}

#[test]
fn install_before_init_is_turned_down() {
    let mut installer = FFbins::new(options(), windows());
    let r = installer.install(InstallEvent::Start);
    assert_eq!(r.err(), Some(out_of_order("not ready")));
    assert_eq!(installer.state(), State::NotReady);
}

#[test]
fn install_runs_from_start_to_ready() {
    let mut installer = installer();

    let action = installer.install(InstallEvent::Start).unwrap();
    assert!(matches!(&action, InstallAction::Fetch(url)
        if url == "https://api.github.com/repos/BtbN/FFmpeg-Builds/releases/latest"));
    assert_eq!(installer.state(), State::Downloading);
    assert!(installer.awaits_response());

    let action = installer.install(InstallEvent::Response(listing())).unwrap();
    assert!(matches!(&action, InstallAction::Connect(url)
        if url == "https://h/dl/ffmpeg-n7.1-latest-win64-lgpl-7.1.zip"));
    assert!(installer.awaits_connection());

    let action = installer.install(InstallEvent::Connected(Some("3000".to_string()))).unwrap();
    assert!(matches!(&action, InstallAction::Open(path)
        if path == "work/temp/ffmpeg-n7.1-latest-win64-lgpl-7.1.zip"));
    assert!(installer.is_reading());

    let mut reports = Vec::new();
    for n in [1024usize, 1024, 952] {
        match installer.install(InstallEvent::Read(n)).unwrap() {
            InstallAction::Write(progress) => reports.push(progress),
            other => panic!("unexpected {:?}", other),
        }
        assert_eq!(installer.state(), State::Downloading);
    }
    let expected: Vec<InstallProgress> = [(1024u64, 341u16), (2048, 683), (3000, 1000)]
        .iter()
        .map(|(current, _)| InstallProgress {
            name: String::new(),
            status: State::Downloading,
            current: *current,
            total: 3000,
            percent: Percent::of(*current, 3000),
        })
        .collect();
    assert_eq!(reports, expected);
    let tenths: Vec<u16> = reports.iter().map(|p| p.percent.tenths()).collect();
    assert_eq!(tenths, vec![341, 683, 1000]);

    let action = installer.install(InstallEvent::Read(0)).unwrap();
    assert!(matches!(&action, InstallAction::Load(path)
        if path == "work/temp/ffmpeg-n7.1-latest-win64-lgpl-7.1.zip"));
    assert_eq!(installer.state(), State::Downloaded);
    assert!(installer.awaits_archive());

    let action = installer.install(InstallEvent::Archive(archive())).unwrap();
    assert_eq!(installer.state(), State::Extracting);
    assert!(installer.is_unpacking());
    match action {
        InstallAction::Unpack(steps) => {
            assert_eq!(steps.len(), 1);
            assert_eq!(steps[0].path, "work/dest/ffmpeg");
            assert_eq!(steps[0].parent, Some("work/dest".to_string()));
            assert_eq!(steps[0].data, b"binary".to_vec());
            let progress = InstallProgress::from_extract(&steps[0].progress);
            assert_eq!(
                progress,
                InstallProgress {
                    name: "ffmpeg".to_string(),
                    status: State::Extracting,
                    current: 6,
                    total: 1,
                    percent: Percent::of(1, 1),
                }
            );
            assert_eq!(steps[0].path, installer.binary_path().as_str());
        },
        other => panic!("unexpected {:?}", other),
    }

    let action = installer.install(InstallEvent::Unpacked).unwrap();
    assert!(matches!(action, InstallAction::Finish));
    assert_eq!(installer.state(), State::Extracted);
    assert!(installer.is_finishing());

    let action = installer.install(InstallEvent::Finished).unwrap();
    assert!(matches!(action, InstallAction::Done));
    assert_eq!(installer.state(), State::Ready);
}

#[test]
fn install_passes_every_state_once_and_in_order() {
    let mut installer = installer();
    let mut seen = vec![installer.state()];
    let events = vec![
        InstallEvent::Start,
        InstallEvent::Response(listing()),
        InstallEvent::Connected(Some("6".to_string())),
        InstallEvent::Read(6),
        InstallEvent::Read(0),
        InstallEvent::Archive(archive()),
        InstallEvent::Unpacked,
        InstallEvent::Finished,
    ];
    for event in events {
        installer.install(event).unwrap();
        if seen.last() != Some(&installer.state()) {
            seen.push(installer.state());
        }
    }
    assert_eq!(
        seen,
        vec![
            State::NotReady,
            State::Downloading,
            State::Downloaded,
            State::Extracting,
            State::Extracted,
            State::Ready,
        ]
    );
}

#[test]
fn install_of_a_7z_archive_takes_its_entries() {
    let mut mac = FFbins::new(options(), Platform { os: Os::MacOs, arch: Arch::Aarch64 });
    mac.init();
    mac.install(InstallEvent::Start).unwrap();
    let direct = Release::Direct(Info { url: "https://e/ffmpeg-7.1.7z".to_string(), size: 1 });
    mac.install(InstallEvent::Response(direct)).unwrap();
    mac.install(InstallEvent::Connected(None)).unwrap();
    let action = mac.install(InstallEvent::Read(0)).unwrap();
    assert!(matches!(&action, InstallAction::List(path) if path == "work/temp/ffmpeg-7.1.7z"));
    assert_eq!(mac.state(), State::Downloaded);

    let entries = vec![ArchiveEntry {
        name: "ffmpeg".to_string(),
        size: 4,
        directory: false,
        data: b"ffmp".to_vec(),
    }];
    match mac.install(InstallEvent::Entries(entries)).unwrap() {
        InstallAction::Unpack(steps) => {
            assert_eq!(steps.len(), 1);
            assert_eq!(steps[0].path, "work/dest/ffmpeg");
            assert_eq!(steps[0].progress.total, 4);
            assert_eq!(steps[0].progress.percent.tenths(), 1000);
        },
        other => panic!("unexpected {:?}", other),
    }
    assert_eq!(mac.state(), State::Extracting);
}

#[test]
fn install_does_not_read_a_7z_archive_from_bytes() {
    let mut mac = FFbins::new(options(), Platform { os: Os::MacOs, arch: Arch::Aarch64 });
    mac.init();
    mac.install(InstallEvent::Start).unwrap();
    let direct = Release::Direct(Info { url: "https://e/ffmpeg-7.1.7z".to_string(), size: 1 });
    mac.install(InstallEvent::Response(direct)).unwrap();
    mac.install(InstallEvent::Connected(None)).unwrap();
    mac.install(InstallEvent::Read(0)).unwrap();
    let r = mac.install(InstallEvent::Archive(archive()));
    assert_eq!(r.err(), Some(Error::SevenZipError("work/temp/ffmpeg-7.1.7z".to_string())));
    assert_eq!(mac.state(), State::Extracting);
}

#[test]
fn install_on_a_system_without_builds_fails_fast() {
    for arch in [Arch::X86_64, Arch::Aarch64, Arch::Other] {
        let mut odd = FFbins::new(options(), Platform { os: Os::Other, arch });
        odd.init();
        let r = odd.install(InstallEvent::Start);
        assert_eq!(r.err(), Some(Error::Resolution("ffmpeg-n7.1".to_string())));
        assert_eq!(odd.state(), State::NotReady);
    }
}

#[test]
fn install_fails_fast_for_what_does_not_exist() {
    let mut installer = FFbins::new(options(), Platform { os: Os::Linux, arch: Arch::Other });
    installer.init();
    let r = installer.install(InstallEvent::Start);
    assert_eq!(r.err(), Some(Error::Resolution("ffmpeg-n7.1".to_string())));
    assert_eq!(installer.state(), State::NotReady);
}

#[test]
fn install_fails_where_no_asset_fits() {
    let mut installer = installer();
    installer.install(InstallEvent::Start).unwrap();
    let r = installer.install(InstallEvent::Response(Release::Listing(Vec::new())));
    assert_eq!(r.err(), Some(Error::Resolution("ffmpeg-n7.1".to_string())));
    assert_eq!(installer.state(), State::Downloading);
    assert!(installer.awaits_response());
}

#[test]
fn install_turns_down_events_out_of_order() {
    let mut installer = installer();
    let r = installer.install(InstallEvent::Read(10));
    assert_eq!(r.err(), Some(out_of_order("not ready")));
    let r = installer.install(InstallEvent::Unpacked);
    assert_eq!(r.err(), Some(out_of_order("not ready")));
    let r = installer.install(InstallEvent::Finished);
    assert_eq!(r.err(), Some(out_of_order("not ready")));
    let r = installer.install(InstallEvent::Entries(Vec::new()));
    assert_eq!(r.err(), Some(out_of_order("not ready")));
    assert_eq!(installer.state(), State::NotReady);

    installer.install(InstallEvent::Start).unwrap();
    let r = installer.install(InstallEvent::Connected(None));
    assert_eq!(r.err(), Some(out_of_order("downloading")));
    let r = installer.install(InstallEvent::Archive(archive()));
    assert_eq!(r.err(), Some(out_of_order("downloading")));
    assert_eq!(installer.state(), State::Downloading);

    installer.install(InstallEvent::Response(listing())).unwrap();
    let r = installer.install(InstallEvent::Response(listing()));
    assert_eq!(r.err(), Some(out_of_order("downloading")));
    let r = installer.install(InstallEvent::Read(1));
    assert_eq!(r.err(), Some(out_of_order("downloading")));
}

#[test]
fn install_without_a_declared_size_reports_zero_percent() {
    let mut installer = installer();
    installer.install(InstallEvent::Start).unwrap();
    installer.install(InstallEvent::Response(listing())).unwrap();
    installer.install(InstallEvent::Connected(None)).unwrap();
    match installer.install(InstallEvent::Read(512)).unwrap() {
        InstallAction::Write(progress) => {
            assert_eq!(progress.current, 512);
            assert_eq!(progress.total, 0);
            assert_eq!(progress.percent.tenths(), 0);
            assert_eq!(progress.status, State::Downloading);
        },
        other => panic!("unexpected {:?}", other),
    }
}

#[test]
fn install_turns_down_an_archive_of_unknown_suffix() {
    let mut installer = installer();
    installer.install(InstallEvent::Start).unwrap();
    let odd = Release::Listing(vec![Info {
        url: "https://h/dl/ffmpeg-n7.1-latest-win64-lgpl-7.1.zip?raw".to_string(),
        size: 1,
    }]);
    assert!(installer.install(InstallEvent::Response(odd)).is_err());

    let mut mac = FFbins::new(options(), Platform { os: Os::MacOs, arch: Arch::Aarch64 });
    mac.init();
    mac.install(InstallEvent::Start).unwrap();
    let direct = Release::Direct(Info { url: "https://e/ffmpeg-7.1.rar".to_string(), size: 1 });
    mac.install(InstallEvent::Response(direct)).unwrap();
    mac.install(InstallEvent::Connected(None)).unwrap();
    mac.install(InstallEvent::Read(0)).unwrap();
    assert_eq!(mac.state(), State::Downloaded);
    let r = mac.install(InstallEvent::Archive(archive()));
    assert_eq!(r.err(), Some(Error::UnsupportedArchiveType("work/temp/ffmpeg-7.1.rar".to_string())));
    assert_eq!(mac.state(), State::Downloaded);
    let r = mac.install(InstallEvent::Entries(Vec::new()));
    assert_eq!(r.err(), Some(Error::UnsupportedArchiveType("work/temp/ffmpeg-7.1.rar".to_string())));
    assert_eq!(mac.state(), State::Downloaded);
}

#[test]
fn install_stays_at_extracting_where_the_archive_is_broken() {
    let mut installer = installer();
    installer.install(InstallEvent::Start).unwrap();
    installer.install(InstallEvent::Response(listing())).unwrap();
    installer.install(InstallEvent::Connected(None)).unwrap();
    installer.install(InstallEvent::Read(0)).unwrap();
    let r = installer.install(InstallEvent::Archive(b"broken".to_vec()));
    assert!(matches!(r, Err(Error::ZipError(_))));
    assert_eq!(installer.state(), State::Extracting);
    let r = installer.install(InstallEvent::Finished);
    assert_eq!(r.err(), Some(out_of_order("extracting")));
}

#[test]
fn install_can_be_started_again() {
    let mut installer = installer();
    installer.install(InstallEvent::Start).unwrap();
    installer.install(InstallEvent::Response(listing())).unwrap();
    installer.install(InstallEvent::Connected(None)).unwrap();
    installer.install(InstallEvent::Read(0)).unwrap();
    assert_eq!(installer.state(), State::Downloaded);
    assert!(matches!(installer.install(InstallEvent::Start), Ok(InstallAction::Fetch(_))));
    assert_eq!(installer.state(), State::Downloading);
    assert!(installer.awaits_response());
}

#[test]
fn install_on_macos_asks_for_the_binary_itself() {
    let mut options = options();
    options.binary = Binary::FFprobe;
    options.version = Versions::V8_0;
    let mut mac = FFbins::new(options, Platform { os: Os::MacOs, arch: Arch::X86_64 });
    mac.init();
    assert_eq!(mac.binary_path(), "work/dest/ffprobe");
    let action = mac.install(InstallEvent::Start).unwrap();
    assert!(matches!(&action, InstallAction::Fetch(url)
        if url == "https://evermeet.cx/ffmpeg/info/ffprobe/8.0.0"));
    let direct = Release::Direct(Info { url: "https://e/ffprobe-8.0.7z".to_string(), size: 5 });
    let action = mac.install(InstallEvent::Response(direct)).unwrap();
    assert!(matches!(&action, InstallAction::Connect(url) if url == "https://e/ffprobe-8.0.7z"));
}

#[test]
fn progress_is_handed_on_with_its_phase() {
    let status = DownloadStatus { current: 5, total: 10, percent: Percent::of(5, 10) };
    assert_eq!(
        InstallProgress::from_download(&status),
        InstallProgress {
            name: String::new(),
            status: State::Downloading,
            current: 5,
            total: 10,
            percent: Percent::of(1, 2),
        }
    );
    let progress = ExtractorProgress {
        name: "bin/ffmpeg".to_string(),
        current: 7,
        total: 3,
        percent: Percent::of(2, 3),
    };
    let handed = InstallProgress::from_extract(&progress);
    assert_eq!(handed.name, "bin/ffmpeg");
    assert_eq!(handed.status, State::Extracting);
    assert_eq!((handed.current, handed.total, handed.percent.tenths()), (7, 3, 667));
}

#[test]
fn error_message_is_the_text_it_carries() {
    assert_eq!(Error::UnsupportedArchiveType("a.rar".to_string()).message(), "a.rar");
    assert_eq!(Error::NotInitialized("not ready".to_string()).message(), "not ready");
    assert_eq!(Error::Resolution("ffmpeg-n7.1".to_string()).message(), "ffmpeg-n7.1");
    assert_eq!(Error::ZipError("bad".to_string()).message(), "bad");
    assert_eq!(Error::SevenZipError("worse".to_string()).message(), "worse");
    assert_eq!(Error::Io("disk full".to_string()).message(), "disk full");
}
