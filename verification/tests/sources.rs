use ffbins_rs::error::Error;
use ffbins_rs::sources::{
    extension, get_url, get_url_, prefix_token, request_url, resolve, suffix_token, supported,
    target, Arch, Binary, Info, Os, Platform, Release, Versions,
};

fn platform(os: Os, arch: Arch) -> Platform {
    Platform { os, arch }
}

fn asset(url: &str, size: u64) -> Info {
    Info { url: url.to_string(), size }
}

fn listing() -> Release {
    let base = "https://github.com/BtbN/FFmpeg-Builds/releases/download/latest/";
    Release::Listing(vec![
        asset(&format!("{}ffmpeg-master-latest-linux64-gpl.tar.xz", base), 1),
        asset(&format!("{}ffmpeg-n7.1-latest-linux64-gpl-7.1.tar.xz", base), 2),
        asset(&format!("{}ffmpeg-n7.1-latest-linux64-lgpl-7.1.tar.xz", base), 3),
        asset(&format!("{}ffmpeg-n7.1-latest-linuxarm64-lgpl-7.1.tar.xz", base), 4),
        asset(&format!("{}ffmpeg-n7.1-latest-win64-lgpl-7.1.zip", base), 5),
        asset(&format!("{}ffmpeg-n8.0-latest-linux64-lgpl-8.0.tar.xz", base), 6),
        asset(&format!("{}ffmpeg-n8.0-latest-winarm64-lgpl-8.0.zip", base), 7),
    ])
}

#[test]
fn every_supported_platform_has_one_target_and_one_extension() {
    let expected = [
        (Os::Linux, Arch::X86_64, "linux64", "tar.xz"),
        (Os::Linux, Arch::Aarch64, "linuxarm64", "tar.xz"),
        (Os::Windows, Arch::X86_64, "win64", "zip"),
        (Os::Windows, Arch::Aarch64, "winarm64", "zip"),
        (Os::MacOs, Arch::X86_64, "macos", "7z"),
        (Os::MacOs, Arch::Aarch64, "macos", "7z"),
        (Os::MacOs, Arch::Other, "macos", "7z"),
    ];
    for (os, arch, word, suffix) in expected {
        assert_eq!(target(platform(os, arch)), Some(word));
        assert_eq!(extension(os), Some(suffix));
        assert!(supported(Binary::FFmpeg, platform(os, arch)));
    }
}

#[test]
fn unsupported_platforms_have_no_target() {
    assert_eq!(target(platform(Os::Linux, Arch::Other)), None);
    assert_eq!(target(platform(Os::Windows, Arch::Other)), None);
    assert!(!supported(Binary::FFmpeg, platform(Os::Linux, Arch::Other)));
}

#[test]
fn an_operating_system_without_builds_has_nothing() {
    assert_eq!(extension(Os::Other), None);
    for arch in [Arch::X86_64, Arch::Aarch64, Arch::Other] {
        let odd = platform(Os::Other, arch);
        assert_eq!(target(odd), None);
        for binary in [Binary::FFmpeg, Binary::FFprobe, Binary::FFplay, Binary::FFserver] {
            assert!(!supported(binary, odd));
        }
        assert_eq!(
            request_url(Binary::FFmpeg, Versions::V7_1, odd),
            Err(Error::Resolution("ffmpeg-n7.1".to_string()))
        );
        assert_eq!(get_url(Binary::FFmpeg, Versions::V7_1, odd, &listing()), None);
        assert_eq!(
            resolve(Binary::FFmpeg, Versions::V7_1, odd, &listing()),
            Err(Error::Resolution("ffmpeg-n7.1".to_string()))
        );
    }
}

#[test]
fn companion_binaries_are_for_macos_only() {
    for binary in [Binary::FFprobe, Binary::FFplay, Binary::FFserver] {
        assert!(supported(binary, platform(Os::MacOs, Arch::Aarch64)));
        assert!(!supported(binary, platform(Os::Linux, Arch::X86_64)));
        assert!(!supported(binary, platform(Os::Windows, Arch::X86_64)));
    }
}

#[test]
fn binary_to_str_names_the_executable() {
    assert_eq!(Binary::FFmpeg.to_str(), "ffmpeg");
    assert_eq!(Binary::FFprobe.to_str(), "ffprobe");
    assert_eq!(Binary::FFplay.to_str(), "ffplay");
    assert_eq!(Binary::FFserver.to_str(), "ffserver");
}

#[test]
fn versions_to_str_adds_a_patch_number_on_macos() {
    assert_eq!(Versions::V8_0.to_str(Os::Linux), "8.0");
    assert_eq!(Versions::V7_1.to_str(Os::Linux), "7.1");
    assert_eq!(Versions::V8_0.to_str(Os::Windows), "8.0");
    assert_eq!(Versions::V7_1.to_str(Os::Windows), "7.1");
    assert_eq!(Versions::V8_0.to_str(Os::MacOs), "8.0.0");
    assert_eq!(Versions::V7_1.to_str(Os::MacOs), "7.1.0");
    assert_eq!(Versions::V8_0.to_str(Os::Other), "8.0");
}

#[test]
fn tokens_are_put_together_from_the_parts() {
    assert_eq!(prefix_token(Binary::FFmpeg, Versions::V7_1, Os::Linux), "ffmpeg-n7.1");
    assert_eq!(prefix_token(Binary::FFprobe, Versions::V8_0, Os::MacOs), "ffprobe-n8.0.0");
    assert_eq!(
        suffix_token(Versions::V7_1, platform(Os::Linux, Arch::Aarch64)),
        "linuxarm64-lgpl-7.1.tar.xz"
    );
    assert_eq!(
        suffix_token(Versions::V8_0, platform(Os::Windows, Arch::X86_64)),
        "win64-lgpl-8.0.zip"
    );
}

#[test]
fn request_url_of_each_source() {
    assert_eq!(
        request_url(Binary::FFmpeg, Versions::V7_1, platform(Os::Linux, Arch::X86_64)),
        Ok("https://api.github.com/repos/BtbN/FFmpeg-Builds/releases/latest".to_string())
    );
    assert_eq!(
        request_url(Binary::FFmpeg, Versions::V8_0, platform(Os::Windows, Arch::Aarch64)),
        Ok("https://api.github.com/repos/BtbN/FFmpeg-Builds/releases/latest".to_string())
    );
    assert_eq!(
        request_url(Binary::FFprobe, Versions::V8_0, platform(Os::MacOs, Arch::Aarch64)),
        Ok("https://evermeet.cx/ffmpeg/info/ffprobe/8.0.0".to_string())
    );
}

#[test]
fn request_url_fails_fast_for_what_does_not_exist() {
    assert_eq!(
        request_url(Binary::FFmpeg, Versions::V7_1, platform(Os::Linux, Arch::Other)),
        Err(Error::Resolution("ffmpeg-n7.1".to_string()))
    );
    assert_eq!(
        request_url(Binary::FFplay, Versions::V8_0, platform(Os::Windows, Arch::X86_64)),
        Err(Error::Resolution("ffplay-n8.0".to_string()))
    );
}

#[test]
fn get_url_picks_the_one_asset_that_fits() {
    let release = listing();
    let linux = platform(Os::Linux, Arch::X86_64);
    assert_eq!(get_url(Binary::FFmpeg, Versions::V7_1, linux, &release).map(|i| i.size), Some(3));
    assert_eq!(get_url(Binary::FFmpeg, Versions::V8_0, linux, &release).map(|i| i.size), Some(6));
    let arm = platform(Os::Linux, Arch::Aarch64);
    assert_eq!(get_url(Binary::FFmpeg, Versions::V7_1, arm, &release).map(|i| i.size), Some(4));
    let win = platform(Os::Windows, Arch::X86_64);
    let found = get_url(Binary::FFmpeg, Versions::V7_1, win, &release).unwrap();
    assert_eq!(found.size, 5);
    assert!(found.url.ends_with("ffmpeg-n7.1-latest-win64-lgpl-7.1.zip"));
}

#[test]
fn get_url_finds_nothing_where_nothing_fits() {
    let release = listing();
    let win = platform(Os::Windows, Arch::X86_64);
    assert_eq!(get_url(Binary::FFmpeg, Versions::V8_0, win, &release), None);
    let arm = platform(Os::Windows, Arch::Aarch64);
    assert_eq!(get_url(Binary::FFmpeg, Versions::V7_1, arm, &release), None);
    let linux = platform(Os::Linux, Arch::X86_64);
    assert_eq!(get_url(Binary::FFmpeg, Versions::V7_1, linux, &Release::Listing(Vec::new())), None);
}

#[test]
fn get_url_takes_the_first_of_two_that_fit() {
    let release = Release::Listing(vec![
        asset("https://a/other.zip", 1),
        asset("https://a/ffmpeg-n7.1-one-win64-lgpl-7.1.zip", 2),
        asset("https://a/ffmpeg-n7.1-two-win64-lgpl-7.1.zip", 3),
    ]);
    let win = platform(Os::Windows, Arch::X86_64);
    assert_eq!(
        get_url(Binary::FFmpeg, Versions::V7_1, win, &release),
        Some(asset("https://a/ffmpeg-n7.1-one-win64-lgpl-7.1.zip", 2))
    );
}

#[test]
fn get_url_wants_both_tokens() {
    let win = platform(Os::Windows, Arch::X86_64);
    let only_suffix = Release::Listing(vec![asset("https://a/ffprobe-n7.1-win64-lgpl-7.1.zip", 1)]);
    assert_eq!(get_url(Binary::FFmpeg, Versions::V7_1, win, &only_suffix), None);
    let only_prefix = Release::Listing(vec![asset("https://a/ffmpeg-n7.1-win64-gpl-7.1.zip", 1)]);
    assert_eq!(get_url(Binary::FFmpeg, Versions::V7_1, win, &only_prefix), None);
    let not_at_end = Release::Listing(vec![asset("https://a/ffmpeg-n7.1-win64-lgpl-7.1.zip.sha", 1)]);
    assert_eq!(get_url(Binary::FFmpeg, Versions::V7_1, win, &not_at_end), None);
}

#[test]
fn get_url_on_a_direct_answer_finds_nothing() {
    let win = platform(Os::Windows, Arch::X86_64);
    let direct = Release::Direct(asset("https://a/ffmpeg-n7.1-win64-lgpl-7.1.zip", 1));
    assert_eq!(get_url(Binary::FFmpeg, Versions::V7_1, win, &direct), None);
}

#[test]
fn get_url_direct_takes_what_the_answer_holds() {
    let direct = Release::Direct(asset("https://evermeet.cx/ffmpeg/ffmpeg-8.0.7z", 77));
    assert_eq!(
        get_url_(Binary::FFmpeg, Versions::V8_0, &direct),
        Some(asset("https://evermeet.cx/ffmpeg/ffmpeg-8.0.7z", 77))
    );
    assert_eq!(get_url_(Binary::FFmpeg, Versions::V8_0, &listing()), None);
}

#[test]
fn resolve_goes_by_the_platform() {
    let linux = platform(Os::Linux, Arch::X86_64);
    assert_eq!(resolve(Binary::FFmpeg, Versions::V7_1, linux, &listing()).map(|i| i.size), Ok(3));
    let mac = platform(Os::MacOs, Arch::Aarch64);
    let direct = Release::Direct(asset("https://evermeet.cx/ffmpeg/ffplay-7.1.7z", 9));
    assert_eq!(resolve(Binary::FFplay, Versions::V7_1, mac, &direct).map(|i| i.size), Ok(9));
}

#[test]
fn resolve_fails_where_nothing_fits() {
    let win = platform(Os::Windows, Arch::X86_64);
    assert_eq!(
        resolve(Binary::FFmpeg, Versions::V8_0, win, &listing()),
        Err(Error::Resolution("ffmpeg-n8.0".to_string()))
    );
    let mac = platform(Os::MacOs, Arch::X86_64);
    assert_eq!(
        resolve(Binary::FFmpeg, Versions::V8_0, mac, &listing()),
        Err(Error::Resolution("ffmpeg-n8.0.0".to_string()))
    );
    let odd = platform(Os::Linux, Arch::Other);
    assert_eq!(
        resolve(Binary::FFmpeg, Versions::V7_1, odd, &listing()),
        Err(Error::Resolution("ffmpeg-n7.1".to_string()))
    );
    let linux = platform(Os::Linux, Arch::X86_64);
    assert_eq!(
        resolve(Binary::FFprobe, Versions::V7_1, linux, &listing()),
        Err(Error::Resolution("ffprobe-n7.1".to_string()))
    );
}
