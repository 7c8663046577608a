//! The resolver: which document to ask for, and which download in it fits a
//! binary, a version and a platform. Fetching the document is the caller's
//! part; it hands over what the document holds.

use vstd::prelude::*;
use vstd::string::*;
use crate::error::Error;
use crate::text::{concat_str, contains, ends_with, occurs_in};

verus! {

/// The operating systems; `Other` is every one that no build exists for.
#[derive(Clone, Copy, Debug, PartialEq, Eq, Structural)]
pub enum Os {
    Linux,
    Windows,
    MacOs,
    Other,
}

/// The processor architectures; `Other` is every one that no build exists
/// for.
#[derive(Clone, Copy, Debug, PartialEq, Eq, Structural)]
pub enum Arch {
    X86_64,
    Aarch64,
    Other,
}

/// The host that a binary is wanted for.
#[derive(Clone, Copy, Debug, PartialEq, Eq, Structural)]
pub struct Platform {
    pub os: Os,
    pub arch: Arch,
}

/// The executables that can be installed. All but `FFmpeg` exist for macOS
/// only.
#[derive(Clone, Copy, Debug, PartialEq, Eq, Structural)]
pub enum Binary {
    FFmpeg,
    FFprobe,
    FFplay,
    FFserver,
}

/// The releases that can be installed.
#[derive(Clone, Copy, Debug, PartialEq, Eq, Structural)]
pub enum Versions {
    V8_0,
    V7_1,
}

/// One download: where it is, and the size it declares (0 if unknown).
#[derive(Clone, Debug, PartialEq, Eq)]
pub struct Info {
    pub url: String,
    pub size: u64,
}

/// A download as contracts see it.
pub struct InfoView {
    pub url: Seq<char>,
    pub size: u64,
}

impl View for Info {
    type V = InfoView;

    open spec fn view(&self) -> InfoView {
        InfoView { url: self.url@, size: self.size }
    }
}

/// What the source of a platform answers with: one download for the binary
/// asked for, or a release with all its assets.
#[derive(Clone, Debug, PartialEq, Eq)]
pub enum Release {
    Direct(Info),
    Listing(Vec<Info>),
}

/// The word for a platform in the names of release assets; none where no
/// build exists.
pub open spec fn spec_target(platform: Platform) -> Option<Seq<char>> {
    match (platform.os, platform.arch) {
        (Os::MacOs, _) => Some("macos"@),
        (Os::Linux, Arch::X86_64) => Some("linux64"@),
        (Os::Linux, Arch::Aarch64) => Some("linuxarm64"@),
        (Os::Windows, Arch::X86_64) => Some("win64"@),
        (Os::Windows, Arch::Aarch64) => Some("winarm64"@),
        _ => None,
    }
}

/// The archive suffix of an operating system's builds, without its dot;
/// none where no build exists.
pub open spec fn spec_extension(os: Os) -> Option<Seq<char>> {
    match os {
        Os::Linux => Some("tar.xz"@),
        Os::Windows => Some("zip"@),
        Os::MacOs => Some("7z"@),
        Os::Other => None,
    }
}

/// Whether `platform` and `binary` go together: a build exists for the
/// platform, and the binary exists for its operating system.
pub open spec fn spec_supported(binary: Binary, platform: Platform) -> bool {
    spec_target(platform) is Some && (binary == Binary::FFmpeg || platform.os == Os::MacOs)
}

/// The token that an asset's URL has to hold: binary, `-n`, version.
pub open spec fn spec_prefix_token(binary: Binary, version: Versions, os: Os) -> Seq<char> {
    binary.spec_str() + "-n"@ + version.spec_str(os)
}

/// The token that an asset's URL has to end with: target, `-lgpl-`, version,
/// a dot, the archive suffix.
pub open spec fn spec_suffix_token(version: Versions, platform: Platform) -> Seq<char> {
    spec_target(platform).unwrap() + "-lgpl-"@ + version.spec_str(platform.os) + "."@
        + spec_extension(platform.os).unwrap()
}

/// Whether an asset at `url` is the build asked for.
pub open spec fn spec_fits(
    url: Seq<char>,
    binary: Binary,
    version: Versions,
    platform: Platform,
) -> bool {
    occurs_in(url, spec_prefix_token(binary, version, platform.os)) && spec_suffix_token(
        version,
        platform,
    ).is_suffix_of(url)
}

/// Whether the asset at `i` is the first of `assets` that is the build asked
/// for.
pub open spec fn is_first_fit(
    assets: Seq<Info>,
    i: int,
    binary: Binary,
    version: Versions,
    platform: Platform,
) -> bool {
    &&& 0 <= i < assets.len()
    &&& spec_fits(assets[i].url@, binary, version, platform)
    &&& forall|j: int|
        0 <= j < i ==> !spec_fits((#[trigger] assets[j]).url@, binary, version, platform)
}

/// Whether the download `(url, size)` is the one that a listing holds for
/// the binary: the first of its assets that fits.
pub open spec fn spec_listed(
    binary: Binary,
    version: Versions,
    platform: Platform,
    release: Release,
    url: Seq<char>,
    size: u64,
) -> bool {
    spec_target(platform) is Some && match release {
        Release::Listing(assets) => exists|i: int|
            #[trigger] is_first_fit(assets@, i, binary, version, platform) && assets[i].url@
                == url && assets[i].size == size,
        Release::Direct(_) => false,
    }
}

/// Whether an answer holds no download for the binary as a listing would: no
/// build exists for the platform, the answer is no listing, or no asset of
/// it fits.
pub open spec fn spec_unlisted(
    binary: Binary,
    version: Versions,
    platform: Platform,
    release: Release,
) -> bool {
    spec_target(platform) is None || match release {
        Release::Listing(assets) => forall|i: int|
            0 <= i < assets.len() ==> !spec_fits(
                (#[trigger] assets[i]).url@,
                binary,
                version,
                platform,
            ),
        Release::Direct(_) => true,
    }
}

/// Whether the download `(url, size)` is what the answer `release` holds for
/// the binary: on macOS the one download of a direct answer, elsewhere the
/// first asset of a listing that fits.
pub open spec fn spec_resolves_to(
    binary: Binary,
    version: Versions,
    platform: Platform,
    release: Release,
    url: Seq<char>,
    size: u64,
) -> bool {
    spec_supported(binary, platform) && match platform.os {
        Os::MacOs => match release {
            Release::Direct(only) => only.url@ == url && only.size == size,
            Release::Listing(_) => false,
        },
        _ => spec_listed(binary, version, platform, release, url, size),
    }
}

/// Whether the answer `release` holds nothing for the binary: binary and
/// platform do not go together, the answer is not of the kind that the
/// platform's source gives, or no asset of the listing fits.
pub open spec fn spec_unresolvable(
    binary: Binary,
    version: Versions,
    platform: Platform,
    release: Release,
) -> bool {
    !spec_supported(binary, platform) || match platform.os {
        Os::MacOs => release is Listing,
        _ => spec_unlisted(binary, version, platform, release),
    }
}

/// The URL of the document to ask for: on macOS one for each binary and
/// version, elsewhere the latest release with all its assets.
pub open spec fn spec_request_url(binary: Binary, version: Versions, os: Os) -> Seq<char> {
    match os {
        Os::MacOs => "https://evermeet.cx/ffmpeg/info/"@ + binary.spec_str() + "/"@
            + version.spec_str(os),
        _ => "https://api.github.com/repos/BtbN/FFmpeg-Builds/releases/latest"@,
    }
}

/// Whether `e` says that nothing fits, naming what was asked for.
pub open spec fn is_unresolved(e: Error, binary: Binary, version: Versions, os: Os) -> bool {
    e matches Error::Resolution(wanted) && wanted@ == spec_prefix_token(binary, version, os)
}

impl Binary {
    /// The executable's name.
    pub open spec fn spec_str(&self) -> Seq<char> {
        match self {
            Binary::FFmpeg => "ffmpeg"@,
            Binary::FFprobe => "ffprobe"@,
            Binary::FFplay => "ffplay"@,
            Binary::FFserver => "ffserver"@,
        }
    }

    /// The executable's name.
    pub fn to_str(&self) -> (r: &'static str)
        ensures
            r@ == self.spec_str(),
    {
        match self {
            Binary::FFmpeg => "ffmpeg",
            Binary::FFprobe => "ffprobe",
            Binary::FFplay => "ffplay",
            Binary::FFserver => "ffserver",
        }
    }
}

impl Versions {
    /// The release as its source writes it: macOS adds a patch number.
    pub open spec fn spec_str(&self, os: Os) -> Seq<char> {
        match (self, os) {
            (Versions::V8_0, Os::MacOs) => "8.0.0"@,
            (Versions::V7_1, Os::MacOs) => "7.1.0"@,
            (Versions::V8_0, _) => "8.0"@,
            (Versions::V7_1, _) => "7.1"@,
        }
    }

    /// The release as the source for `os` writes it.
    pub fn to_str(&self, os: Os) -> (r: &'static str)
        ensures
            r@ == self.spec_str(os),
    {
        match (self, os) {
            (Versions::V8_0, Os::MacOs) => "8.0.0",
            (Versions::V7_1, Os::MacOs) => "7.1.0",
            (Versions::V8_0, _) => "8.0",
            (Versions::V7_1, _) => "7.1",
        }
    }
}

/// The word for `platform` in the names of release assets; none where no
/// build exists for it.
pub fn target(platform: Platform) -> (r: Option<&'static str>)
    ensures
        match r {
            Some(word) => spec_target(platform) == Some(word@),
            None => spec_target(platform) is None,
        },
{
    match (platform.os, platform.arch) {
        (Os::MacOs, _) => Some("macos"),
        (Os::Linux, Arch::X86_64) => Some("linux64"),
        (Os::Linux, Arch::Aarch64) => Some("linuxarm64"),
        (Os::Windows, Arch::X86_64) => Some("win64"),
        (Os::Windows, Arch::Aarch64) => Some("winarm64"),
        _ => None,
    }
}

/// The archive suffix of the builds for `os`, without its dot; none where
/// no build exists for it.
pub fn extension(os: Os) -> (r: Option<&'static str>)
    ensures
        match r {
            Some(suffix) => spec_extension(os) == Some(suffix@),
            None => spec_extension(os) is None,
        },
{
    match os {
        Os::Linux => Some("tar.xz"),
        Os::Windows => Some("zip"),
        Os::MacOs => Some("7z"),
        Os::Other => None,
    }
}

/// Whether `binary` can be had for `platform`.
pub fn supported(binary: Binary, platform: Platform) -> (r: bool)
    ensures
        r == spec_supported(binary, platform),
{
    let target_known = target(platform).is_some();
    let binary_known = match (binary, platform.os) {
        (Binary::FFmpeg, _) => true,
        (_, Os::MacOs) => true,
        _ => false,
    };
    target_known && binary_known
}

/// The token that an asset's URL has to hold.
pub fn prefix_token(binary: Binary, version: Versions, os: Os) -> (r: String)
    ensures
        r@ == spec_prefix_token(binary, version, os),
{
    let mut r = concat_str(binary.to_str(), "-n");
    r.append(version.to_str(os));
    r
}

/// The token that an asset's URL has to end with, for a platform that a
/// build exists for.
pub fn suffix_token(version: Versions, platform: Platform) -> (r: String)
    requires
        spec_target(platform) is Some,
    ensures
        r@ == spec_suffix_token(version, platform),
{
    let word = match target(platform) {
        Some(word) => word,
        None => "",
    };
    let mut r = concat_str(word, "-lgpl-");
    r.append(version.to_str(platform.os));
    r.append(".");
    let suffix = match extension(platform.os) {
        Some(suffix) => suffix,
        None => "",
    };
    r.append(suffix);
    r
}

/// The URL of the document that says where `binary` in `version` is to be
/// had for `platform`. It fails at once where the two do not go together.
pub fn request_url(binary: Binary, version: Versions, platform: Platform) -> (r: Result<
    String,
    Error,
>)
    ensures
        match r {
            Ok(url) => spec_supported(binary, platform) && url@ == spec_request_url(
                binary,
                version,
                platform.os,
            ),
            Err(e) => !spec_supported(binary, platform) && is_unresolved(
                e,
                binary,
                version,
                platform.os,
            ),
        },
{
    if !supported(binary, platform) {
        return Err(Error::Resolution(prefix_token(binary, version, platform.os)));
    }
    match platform.os {
        Os::MacOs => {
            let mut url = concat_str("https://evermeet.cx/ffmpeg/info/", binary.to_str());
            url.append("/");
            url.append(version.to_str(platform.os));
            Ok(url)
        },
        _ => Ok("https://api.github.com/repos/BtbN/FFmpeg-Builds/releases/latest".to_owned()),
    }
}

/// A copy of `info`.
pub fn copy_info(info: &Info) -> (r: Info)
    ensures
        r.url@ == info.url@,
        r.size == info.size,
{
    Info { url: info.url.clone(), size: info.size }
}

/// The download for a binary whose source answers for that binary alone: the
/// one that the answer holds. A release with a list of assets is no such
/// answer.
pub fn get_url_(name: Binary, version: Versions, release: &Release) -> (r: Option<Info>)
    ensures
        match r {
            Some(info) => release matches Release::Direct(only) && info.url@ == only.url@
                && info.size == only.size,
            None => release is Listing,
        },
{
    match release {
        Release::Direct(only) => Some(copy_info(only)),
        Release::Listing(_) => None,
    }
}

/// The download for a binary out of a release's assets: the first, in the
/// order of the listing, whose URL holds the binary's and version's token
/// and ends with the platform's. None where none fits, where the answer is no
/// listing, and where no build exists for the platform.
pub fn get_url(name: Binary, version: Versions, platform: Platform, release: &Release) -> (r:
    Option<Info>)
    ensures
        match r {
            Some(info) => spec_listed(name, version, platform, *release, info.url@, info.size),
            None => spec_unlisted(name, version, platform, *release),
        },
{
    if target(platform).is_none() {
        return None;
    }
    let assets = match release {
        Release::Listing(assets) => assets,
        Release::Direct(_) => {
            return None;
        },
    };
    let starts = prefix_token(name, version, platform.os);
    let ends = suffix_token(version, platform);
    let mut i: usize = 0;
    while i < assets.len()
        invariant
            i <= assets.len(),
            *release == Release::Listing(*assets),
            spec_target(platform) is Some,
            starts@ == spec_prefix_token(name, version, platform.os),
            ends@ == spec_suffix_token(version, platform),
            forall|j: int|
                0 <= j < i ==> !spec_fits((#[trigger] assets[j]).url@, name, version, platform),
        decreases assets.len() - i,
    {
        let url = assets[i].url.as_str();
        if contains(url, starts.as_str()) && ends_with(url, ends.as_str()) {
            let info = copy_info(&assets[i]);
            assert(is_first_fit(assets@, i as int, name, version, platform));
            assert(release->Listing_0 == *assets);
            return Some(info);
        }
        i += 1;
    }
    None
}

/// The download of `binary` in `version` for `platform`, out of the answer
/// of the platform's source. It fails where binary and platform do not go
/// together, and where nothing in the answer fits.
pub fn resolve(binary: Binary, version: Versions, platform: Platform, release: &Release) -> (r:
    Result<Info, Error>)
    ensures
        match r {
            Ok(info) => spec_resolves_to(binary, version, platform, *release, info.url@, info.size),
            Err(e) => spec_unresolvable(binary, version, platform, *release) && is_unresolved(
                e,
                binary,
                version,
                platform.os,
            ),
        },
{
    if !supported(binary, platform) {
        return Err(Error::Resolution(prefix_token(binary, version, platform.os)));
    }
    let found = match platform.os {
        Os::MacOs => get_url_(binary, version, release),
        _ => get_url(binary, version, platform, release),
    };
    match found {
        Some(info) => Ok(info),
        None => Err(Error::Resolution(prefix_token(binary, version, platform.os))),
    }
}

/// Every platform that a build exists for has one target word and one
/// archive suffix: macOS on every architecture, Linux and Windows on the two
/// that are built for. Every other platform has no target, and nothing can
/// be had for an operating system without builds.
pub proof fn lemma_one_target_per_platform(platform: Platform)
    ensures
        (platform.os == Os::MacOs || (platform.os != Os::Other && platform.arch != Arch::Other))
            <==> spec_target(platform) is Some,
        spec_target(platform) is Some ==> spec_extension(platform.os) is Some,
        spec_target(platform) is Some ==> spec_supported(Binary::FFmpeg, platform),
        platform.os == Os::Other ==> forall|binary: Binary| !spec_supported(binary, platform),
{
}

/// An asset is the answer only if it fits and none before it does: of two
/// that fit, the first in the listing is taken.
pub proof fn lemma_first_fit_is_unique(
    assets: Seq<Info>,
    i: int,
    j: int,
    binary: Binary,
    version: Versions,
    platform: Platform,
)
    requires
        is_first_fit(assets, i, binary, version, platform),
        is_first_fit(assets, j, binary, version, platform),
    ensures
        i == j,
{
    if i < j {
        assert(!spec_fits(assets[i].url@, binary, version, platform));
    } else if j < i {
        assert(!spec_fits(assets[j].url@, binary, version, platform));
    }
}

} // verus!
