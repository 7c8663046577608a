//! The installer: a state machine that leads one install from the request
//! for a download, through the download, to the unpacked archive. It decides
//! and keeps count; the caller does what it is told (ask the network, write
//! files) and reports back what happened.

use vstd::prelude::*;
use vstd::string::*;
use crate::download::{
    spec_content_length, spec_destination, spec_on_read, Download, DownloadStatus, DownloadStep,
    DownloadView,
};
use crate::error::Error;
use crate::extract::{
    entry_views, is_read_error, is_unsupported, spec_archive_type, spec_listing, spec_plan,
    step_views, ArchiveEntry, ArchiveType, ExtractStep, Extractor, ExtractorProgress,
};
use crate::paths::{as_directory, join, spec_as_directory, spec_join};
use crate::progress::{spec_percent, Percent};
use crate::sources::{
    is_unresolved, request_url, resolve, spec_request_url, spec_resolves_to, spec_supported,
    spec_unresolvable, Binary, Info, InfoView, Platform, Release, Versions,
};

verus! {

/// How far an install has come.
#[derive(Clone, Copy, Debug, PartialEq, Eq, Structural)]
pub enum State {
    NotReady,
    Downloading,
    Downloaded,
    Extracting,
    Extracted,
    Ready,
}

/// What to install, and where.
#[derive(Clone, Debug)]
pub struct Options {
    /// The directory that the binaries go to.
    pub dest: String,
    /// The directory that the download is kept in.
    pub temp: String,
    /// The binary to install.
    pub binary: Binary,
    /// The release of it.
    pub version: Versions,
}

/// One progress report of an install: a report of the download or of the
/// extraction, with the phase it comes from.
#[derive(Clone, Debug, PartialEq, Eq)]
pub struct InstallProgress {
    pub name: String,
    pub status: State,
    pub current: u64,
    pub total: u64,
    pub percent: Percent,
}

/// What the caller reports to the installer.
#[derive(Debug)]
pub enum InstallEvent {
    /// An install is asked for.
    Start,
    /// The document asked for has come, holding this.
    Response(Release),
    /// The download has answered, with this `Content-Length` header if any.
    Connected(Option<String>),
    /// A read of the download's body brought this many bytes.
    Read(usize),
    /// The downloaded file holds these bytes.
    Archive(Vec<u8>),
    /// The downloaded archive holds these entries, as the caller read them.
    Entries(Vec<ArchiveEntry>),
    /// Every step of the extraction has been carried out.
    Unpacked,
    /// The install has been closed.
    Finished,
}

/// What the installer tells the caller to do next.
#[derive(Debug)]
pub enum InstallAction {
    /// Get the document at this URL and report it as `Response`.
    Fetch(String),
    /// Ask for the download at this URL and report `Connected`.
    Connect(String),
    /// Create this file, its directory first, and report each read of the
    /// body as `Read`.
    Open(String),
    /// Write what was just read, hand out this progress, and read on.
    Write(InstallProgress),
    /// Close the file; read this file whole and report it as `Archive`.
    Load(String),
    /// Close the file; read the entries out of this 7z archive and report
    /// them as `Entries`.
    List(String),
    /// Carry out these steps in order, handing out the progress of each, and
    /// report `Unpacked`.
    Unpack(Vec<ExtractStep>),
    /// Everything is unpacked: close the install and report `Finished`.
    Finish,
    /// The install is done.
    Done,
}

/// The installer as contracts see it.
pub struct InstallerView {
    pub dest: Seq<char>,
    pub temp: Seq<char>,
    pub binary: Binary,
    pub version: Versions,
    pub platform: Platform,
    pub binary_path: Seq<char>,
    pub initialized: bool,
    pub state: State,
    /// The download that the source gave: URL and declared size.
    pub info: Option<InfoView>,
    pub download: Option<DownloadView>,
}

/// The installer of one binary.
#[derive(Debug)]
pub struct FFbins {
    options: Options,
    platform: Platform,
    binary_path: String,
    initialized: bool,
    state: State,
    info: Option<Info>,
    download: Option<Download>,
}

/// What an installer in a given condition waits for.
pub enum Stage {
    /// Nothing is under way: only `Start` goes.
    Idle,
    /// `Response`.
    AwaitingResponse,
    /// `Connected`.
    AwaitingConnection,
    /// `Read`.
    Reading,
    /// `Archive`, or `Entries`.
    AwaitingArchive,
    /// `Unpacked`.
    Unpacking,
    /// `Finished`.
    Finishing,
}

/// What the installer waits for.
pub open spec fn spec_stage(v: InstallerView) -> Stage {
    match v.state {
        State::Downloading => match (v.info, v.download) {
            (None, _) => Stage::AwaitingResponse,
            (Some(_), None) => Stage::AwaitingConnection,
            (Some(_), Some(d)) => if d.finished {
                Stage::Idle
            } else {
                Stage::Reading
            },
        },
        State::Downloaded => if v.download is Some {
            Stage::AwaitingArchive
        } else {
            Stage::Idle
        },
        State::Extracting => Stage::Unpacking,
        State::Extracted => Stage::Finishing,
        _ => Stage::Idle,
    }
}

/// Whether `event` is the one that `stage` waits for. `Start` always is.
pub open spec fn spec_expected(stage: Stage, event: InstallEvent) -> bool {
    match event {
        InstallEvent::Start => true,
        InstallEvent::Response(_) => stage is AwaitingResponse,
        InstallEvent::Connected(_) => stage is AwaitingConnection,
        InstallEvent::Read(_) => stage is Reading,
        InstallEvent::Archive(_) => stage is AwaitingArchive,
        InstallEvent::Entries(_) => stage is AwaitingArchive,
        InstallEvent::Unpacked => stage is Unpacking,
        InstallEvent::Finished => stage is Finishing,
    }
}

/// Whether `e` says that a step came out of order, naming the state it came
/// in.
pub open spec fn is_out_of_order(e: Error, state: State) -> bool {
    e matches Error::NotInitialized(found) && found@ == state.spec_string()
}

/// Whether `p` is the download report `(current, total)` as the installer
/// hands it on: under the phase `Downloading`, with no name.
pub open spec fn is_download_progress(p: InstallProgress, current: u64, total: u64) -> bool {
    &&& p.name@ == Seq::<char>::empty()
    &&& p.status == State::Downloading
    &&& p.current == current
    &&& p.total == total
    &&& p.percent@ == spec_percent(current as nat, total as nat)
    &&& p.percent.wf()
}

/// A step that is turned down because it came out of order: nothing
/// changes, and the error names the state.
pub open spec fn spec_refused(
    before: InstallerView,
    after: InstallerView,
    r: Result<InstallAction, Error>,
) -> bool {
    after == before && match r {
        Err(e) => is_out_of_order(e, before.state),
        Ok(_) => false,
    }
}

/// What `Start` does. Before `init` it is turned down. Where no build exists
/// for the binary on the platform it fails and changes nothing. Else a new
/// install begins, whatever came before: the state is `Downloading`, and the
/// document to fetch is the one of the platform's source.
pub open spec fn spec_started(
    before: InstallerView,
    after: InstallerView,
    r: Result<InstallAction, Error>,
) -> bool {
    if !before.initialized {
        spec_refused(before, after, r)
    } else if !spec_supported(before.binary, before.platform) {
        after == before && match r {
            Err(e) => is_unresolved(e, before.binary, before.version, before.platform.os),
            Ok(_) => false,
        }
    } else {
        after == (InstallerView {
            state: State::Downloading,
            info: None,
            download: None,
            ..before
        }) && match r {
            Ok(InstallAction::Fetch(url)) => url@ == spec_request_url(
                before.binary,
                before.version,
                before.platform.os,
            ),
            _ => false,
        }
    }
}

/// What the source's answer leads to: the download that it holds for the
/// binary is kept, and is to be connected to; where it holds none, the step
/// fails and changes nothing.
pub open spec fn spec_responded(
    before: InstallerView,
    release: Release,
    after: InstallerView,
    r: Result<InstallAction, Error>,
) -> bool {
    match r {
        Ok(InstallAction::Connect(url)) => match after.info {
            Some(info) => {
                &&& info.url == url@
                &&& spec_resolves_to(
                    before.binary,
                    before.version,
                    before.platform,
                    release,
                    info.url,
                    info.size,
                )
                &&& after == (InstallerView { info: Some(info), ..before })
            },
            None => false,
        },
        Ok(_) => false,
        Err(e) => {
            &&& after == before
            &&& spec_unresolvable(before.binary, before.version, before.platform, release)
            &&& is_unresolved(e, before.binary, before.version, before.platform.os)
        },
    }
}

/// The download that begins once the connection answers with `header`: it
/// goes under the temporary directory by the final segment of its URL,
/// expects what the header declares, and has received nothing.
pub open spec fn spec_new_download(before: InstallerView, header: Option<Seq<char>>) -> DownloadView {
    DownloadView {
        dest: spec_destination(before.info.unwrap().url, spec_as_directory(before.temp)),
        total: spec_content_length(header),
        current: 0,
        finished: false,
    }
}

/// What the connection's answer leads to: the download is set up, and its
/// file is to be opened.
pub open spec fn spec_connected(
    before: InstallerView,
    header: Option<Seq<char>>,
    after: InstallerView,
    r: Result<InstallAction, Error>,
) -> bool {
    let d = spec_new_download(before, header);
    after == (InstallerView { download: Some(d), ..before }) && match r {
        Ok(InstallAction::Open(path)) => path@ == d.dest,
        _ => false,
    }
}

/// What a read of `n` bytes leads to. A read of nothing ends the download:
/// the state is `Downloaded`, and the file is to be read, as entries where
/// its name stands for a 7z archive, else as bytes. Any other read is
/// counted, and is to be written and reported.
pub open spec fn spec_read(
    before: InstallerView,
    n: nat,
    after: InstallerView,
    r: Result<InstallAction, Error>,
) -> bool {
    let d = spec_on_read(before.download.unwrap(), n);
    if n == 0 {
        after == (InstallerView { state: State::Downloaded, download: Some(d), ..before })
            && match r {
            Ok(InstallAction::Load(path)) => path@ == d.dest && spec_archive_type(d.dest) != Some(
                ArchiveType::SevenZip,
            ),
            Ok(InstallAction::List(path)) => path@ == d.dest && spec_archive_type(d.dest) == Some(
                ArchiveType::SevenZip,
            ),
            _ => false,
        }
    } else {
        after == (InstallerView { download: Some(d), ..before }) && match r {
            Ok(InstallAction::Write(p)) => is_download_progress(p, d.current, d.total),
            _ => false,
        }
    }
}

/// What the downloaded file's bytes lead to. Where its name stands for no
/// known format, the step fails before anything else and changes nothing.
/// Else the state is `Extracting`, and the steps are those that unpack the
/// archive under the destination; where the archive cannot be read the step
/// fails there.
pub open spec fn spec_loaded(
    before: InstallerView,
    bytes: Seq<u8>,
    after: InstallerView,
    r: Result<InstallAction, Error>,
) -> bool {
    let file = before.download.unwrap().dest;
    match spec_archive_type(file) {
        None => after == before && match r {
            Err(e) => is_unsupported(e, file),
            Ok(_) => false,
        },
        Some(kind) => after == (InstallerView { state: State::Extracting, ..before })
            && match r {
            Ok(InstallAction::Unpack(steps)) => match spec_listing(kind, bytes) {
                Some(entries) => step_views(steps@) == spec_plan(kind, before.dest, entries),
                None => false,
            },
            Ok(_) => false,
            Err(e) => spec_listing(kind, bytes) is None && is_read_error(kind, e),
        },
    }
}

/// What the archive's entries lead to, where the caller read them. Where the
/// file's name stands for no known format, the step fails before anything
/// else and changes nothing. Else the state is `Extracting`, and the steps
/// are those that unpack the entries under the destination.
pub open spec fn spec_listed_entries(
    before: InstallerView,
    entries: Seq<ArchiveEntry>,
    after: InstallerView,
    r: Result<InstallAction, Error>,
) -> bool {
    let file = before.download.unwrap().dest;
    match spec_archive_type(file) {
        None => after == before && match r {
            Err(e) => is_unsupported(e, file),
            Ok(_) => false,
        },
        Some(kind) => after == (InstallerView { state: State::Extracting, ..before })
            && match r {
            Ok(InstallAction::Unpack(steps)) => step_views(steps@) == spec_plan(
                kind,
                before.dest,
                entry_views(entries),
            ),
            _ => false,
        },
    }
}

/// What the end of the extraction leads to: the state is `Extracted`, and
/// the install is to be closed.
pub open spec fn spec_unpacked(
    before: InstallerView,
    after: InstallerView,
    r: Result<InstallAction, Error>,
) -> bool {
    after == (InstallerView { state: State::Extracted, ..before }) && r
        matches Ok(InstallAction::Finish)
}

/// What closing the install leads to: the install is done, the state
/// `Ready`.
pub open spec fn spec_finished(
    before: InstallerView,
    after: InstallerView,
    r: Result<InstallAction, Error>,
) -> bool {
    after == (InstallerView { state: State::Ready, ..before }) && r
        matches Ok(InstallAction::Done)
}

/// The `Content-Length` header as contracts see it.
pub open spec fn header_view(header: Option<String>) -> Option<Seq<char>> {
    match header {
        Some(text) => Some(text@),
        None => None,
    }
}

/// What one step of an install does: `Start` as `spec_started` says; every
/// other event as its own rule says where the installer waits for it, and
/// turned down where it does not.
pub open spec fn spec_installed(
    before: InstallerView,
    event: InstallEvent,
    after: InstallerView,
    r: Result<InstallAction, Error>,
) -> bool {
    if !spec_expected(spec_stage(before), event) {
        spec_refused(before, after, r)
    } else {
        match event {
            InstallEvent::Start => spec_started(before, after, r),
            InstallEvent::Response(release) => spec_responded(before, release, after, r),
            InstallEvent::Connected(header) => spec_connected(
                before,
                header_view(header),
                after,
                r,
            ),
            InstallEvent::Read(n) => spec_read(before, n as nat, after, r),
            InstallEvent::Archive(bytes) => spec_loaded(before, bytes@, after, r),
            InstallEvent::Entries(entries) => spec_listed_entries(before, entries@, after, r),
            InstallEvent::Unpacked => spec_unpacked(before, after, r),
            InstallEvent::Finished => spec_finished(before, after, r),
        }
    }
}

impl State {
    /// The state in words.
    pub open spec fn spec_string(&self) -> Seq<char> {
        match self {
            State::NotReady => "not ready"@,
            State::Downloading => "downloading"@,
            State::Downloaded => "downloaded"@,
            State::Extracting => "extracting"@,
            State::Extracted => "extracted"@,
            State::Ready => "ready"@,
        }
    }

    /// The place of the state in the order that an install passes through.
    pub open spec fn spec_rank(&self) -> nat {
        match self {
            State::NotReady => 0,
            State::Downloading => 1,
            State::Downloaded => 2,
            State::Extracting => 3,
            State::Extracted => 4,
            State::Ready => 5,
        }
    }

    /// The state in words.
    pub fn to_string(&self) -> (r: String)
        ensures
            r@ == self.spec_string(),
    {
        match self {
            State::NotReady => "not ready".to_owned(),
            State::Downloading => "downloading".to_owned(),
            State::Downloaded => "downloaded".to_owned(),
            State::Extracting => "extracting".to_owned(),
            State::Extracted => "extracted".to_owned(),
            State::Ready => "ready".to_owned(),
        }
    }
}

impl InstallProgress {
    /// A report of the download, as the installer hands it on.
    pub fn from_download(status: &DownloadStatus) -> (p: InstallProgress)
        ensures
            p.name@ == Seq::<char>::empty(),
            p.status == State::Downloading,
            p.current == status.current,
            p.total == status.total,
            p.percent == status.percent,
    {
        InstallProgress {
            name: String::new(),
            status: State::Downloading,
            current: status.current,
            total: status.total,
            percent: status.percent,
        }
    }

    /// A report of the extraction, as the installer hands it on.
    pub fn from_extract(progress: &ExtractorProgress) -> (p: InstallProgress)
        ensures
            p.name@ == progress.name@,
            p.status == State::Extracting,
            p.current == progress.current,
            p.total == progress.total,
            p.percent == progress.percent,
    {
        InstallProgress {
            name: progress.name.clone(),
            status: State::Extracting,
            current: progress.current,
            total: progress.total,
            percent: progress.percent,
        }
    }
}

impl View for FFbins {
    type V = InstallerView;

    closed spec fn view(&self) -> InstallerView {
        InstallerView {
            dest: self.options.dest@,
            temp: self.options.temp@,
            binary: self.options.binary,
            version: self.options.version,
            platform: self.platform,
            binary_path: self.binary_path@,
            initialized: self.initialized,
            state: self.state,
            info: match self.info {
                Some(info) => Some(info@),
                None => None,
            },
            download: match self.download {
                Some(d) => Some(d@),
                None => None,
            },
        }
    }
}

impl FFbins {
    /// An installer for `options` on `platform`: not initialized, nothing
    /// under way.
    pub fn new(options: Options, platform: Platform) -> (r: FFbins)
        ensures
            r@.dest == options.dest@,
            r@.temp == options.temp@,
            r@.binary == options.binary,
            r@.version == options.version,
            r@.platform == platform,
            r@.binary_path == Seq::<char>::empty(),
            !r@.initialized,
            r@.state == State::NotReady,
            r@.info is None,
            r@.download is None,
    {
        FFbins {
            options,
            platform,
            binary_path: String::new(),
            initialized: false,
            state: State::NotReady,
            info: None,
            download: None,
        }
    }

    /// Works out where the binary will be: under the destination, by its own
    /// name. The destination and the temporary directory have to exist
    /// before an install; creating them is the caller's part. To be called
    /// before `install`; calling it again changes nothing.
    pub fn init(&mut self)
        ensures
            final(self)@ == (InstallerView {
                binary_path: spec_join(old(self)@.dest, old(self)@.binary.spec_str()),
                initialized: true,
                ..old(self)@
            }),
    {
        self.binary_path = join(self.options.dest.as_str(), self.options.binary.to_str());
        self.initialized = true;
    }

    /// The directory that the binaries go to.
    pub fn dest(&self) -> (r: &String)
        ensures
            r@ == self@.dest,
    {
        &self.options.dest
    }

    /// The directory that the download is kept in.
    pub fn temp(&self) -> (r: &String)
        ensures
            r@ == self@.temp,
    {
        &self.options.temp
    }

    /// Where the binary is once installed; empty before `init`.
    pub fn binary_path(&self) -> (r: &String)
        ensures
            r@ == self@.binary_path,
    {
        &self.binary_path
    }

    /// How far the install has come.
    pub fn state(&self) -> (r: State)
        ensures
            r == self@.state,
    {
        self.state
    }

    /// Whether `init` has been called.
    pub fn is_initialized(&self) -> (r: bool)
        ensures
            r == self@.initialized,
    {
        self.initialized
    }

    /// The error for a step out of order.
    fn out_of_order(&self) -> (e: Error)
        ensures
            is_out_of_order(e, self@.state),
    {
        Error::NotInitialized(self.state.to_string())
    }

    /// Begins an install.
    fn start(&mut self) -> (r: Result<InstallAction, Error>)
        ensures
            spec_started(old(self)@, final(self)@, r),
    {
        if !self.initialized {
            return Err(self.out_of_order());
        }
        match request_url(self.options.binary, self.options.version, self.platform) {
            Ok(url) => {
                self.state = State::Downloading;
                self.info = None;
                self.download = None;
                Ok(InstallAction::Fetch(url))
            },
            Err(e) => Err(e),
        }
    }

    /// Picks the download out of the source's answer.
    fn on_response(&mut self, release: Release) -> (r: Result<InstallAction, Error>)
        requires
            spec_stage(old(self)@) is AwaitingResponse,
        ensures
            spec_responded(old(self)@, release, final(self)@, r),
    {
        match resolve(self.options.binary, self.options.version, self.platform, &release) {
            Ok(info) => {
                let url = info.url.clone();
                self.info = Some(info);
                Ok(InstallAction::Connect(url))
            },
            Err(e) => Err(e),
        }
    }

    /// Sets the download up, its answer's header in hand.
    fn on_connected(&mut self, header: Option<String>) -> (r: Result<InstallAction, Error>)
        requires
            spec_stage(old(self)@) is AwaitingConnection,
        ensures
            spec_connected(old(self)@, header_view(header), final(self)@, r),
    {
        let directory = as_directory(self.options.temp.as_str());
        let url = match &self.info {
            Some(info) => info.url.as_str(),
            None => "",
        };
        let download = match &header {
            Some(text) => Download::begin(url, directory.as_str(), Some(text.as_str())),
            None => Download::begin(url, directory.as_str(), None),
        };
        let path = download.destination().clone();
        self.download = Some(download);
        Ok(InstallAction::Open(path))
    }

    /// Takes note of a read of the download's body.
    fn on_read(&mut self, n: usize) -> (r: Result<InstallAction, Error>)
        requires
            spec_stage(old(self)@) is Reading,
            old(self)@.download.unwrap().current + n <= u64::MAX,
        ensures
            spec_read(old(self)@, n as nat, final(self)@, r),
    {
        let mut slot: Option<Download> = None;
        core::mem::swap(&mut slot, &mut self.download);
        match slot {
            Some(mut download) => {
                let step = download.on_read(n);
                let path = download.destination().clone();
                self.download = Some(download);
                match step {
                    DownloadStep::Wrote(status) => Ok(
                        InstallAction::Write(InstallProgress::from_download(&status)),
                    ),
                    DownloadStep::Finished => {
                        self.state = State::Downloaded;
                        match ArchiveType::from_filename(path.as_str()) {
                            Ok(ArchiveType::SevenZip) => Ok(InstallAction::List(path)),
                            _ => Ok(InstallAction::Load(path)),
                        }
                    },
                }
            },
            None => Err(self.out_of_order()),
        }
    }

    /// Reads the downloaded archive and plans its extraction.
    fn on_archive(&mut self, bytes: Vec<u8>) -> (r: Result<InstallAction, Error>)
        requires
            spec_stage(old(self)@) is AwaitingArchive,
        ensures
            spec_loaded(old(self)@, bytes@, final(self)@, r),
    {
        let path = match &self.download {
            Some(download) => download.destination().clone(),
            None => String::new(),
        };
        let extractor = match Extractor::load(path, self.options.dest.clone()) {
            Ok(extractor) => extractor,
            Err(e) => {
                return Err(e);
            },
        };
        self.state = State::Extracting;
        match extractor.extract(&bytes) {
            Ok(steps) => Ok(InstallAction::Unpack(steps)),
            Err(e) => Err(e),
        }
    }

    /// Plans the extraction of the entries that the caller read.
    fn on_entries(&mut self, entries: Vec<ArchiveEntry>) -> (r: Result<InstallAction, Error>)
        requires
            spec_stage(old(self)@) is AwaitingArchive,
        ensures
            spec_listed_entries(old(self)@, entries@, final(self)@, r),
    {
        let path = match &self.download {
            Some(download) => download.destination().clone(),
            None => String::new(),
        };
        let extractor = match Extractor::load(path, self.options.dest.clone()) {
            Ok(extractor) => extractor,
            Err(e) => {
                return Err(e);
            },
        };
        match extractor.extract_entries(entries) {
            Ok(steps) => {
                self.state = State::Extracting;
                Ok(InstallAction::Unpack(steps))
            },
            Err(e) => Err(e),
        }
    }

    /// Leads the install one step on: takes what the caller reports and says
    /// what to do next.
    ///
    /// `Start` begins an install, whatever came before; it is turned down
    /// before `init`, and where no build exists for the binary on the
    /// platform. Every other event has to be the one that the installer
    /// waits for, and is turned down otherwise. A step that is turned down
    /// or fails leaves the installer where the failure found it; nothing is
    /// undone. The state passes `Downloading`, `Downloaded`, `Extracting`,
    /// `Extracted` and `Ready`, one step at a time. The count of bytes read
    /// has to fit in 64 bits.
    pub fn install(&mut self, event: InstallEvent) -> (r: Result<InstallAction, Error>)
        requires
            spec_stage(old(self)@) is Reading ==> match event {
                InstallEvent::Read(n) => old(self)@.download.unwrap().current + n <= u64::MAX,
                _ => true,
            },
        ensures
            spec_installed(old(self)@, event, final(self)@, r),
    {
        match event {
            InstallEvent::Start => self.start(),
            InstallEvent::Response(release) => {
                if self.awaits_response() {
                    self.on_response(release)
                } else {
                    Err(self.out_of_order())
                }
            },
            InstallEvent::Connected(header) => {
                if self.awaits_connection() {
                    self.on_connected(header)
                } else {
                    Err(self.out_of_order())
                }
            },
            InstallEvent::Read(n) => {
                if self.is_reading() {
                    self.on_read(n)
                } else {
                    Err(self.out_of_order())
                }
            },
            InstallEvent::Archive(bytes) => {
                if self.awaits_archive() {
                    self.on_archive(bytes)
                } else {
                    Err(self.out_of_order())
                }
            },
            InstallEvent::Entries(entries) => {
                if self.awaits_archive() {
                    self.on_entries(entries)
                } else {
                    Err(self.out_of_order())
                }
            },
            InstallEvent::Unpacked => {
                if self.is_unpacking() {
                    self.state = State::Extracted;
                    Ok(InstallAction::Finish)
                } else {
                    Err(self.out_of_order())
                }
            },
            InstallEvent::Finished => {
                if self.is_finishing() {
                    self.state = State::Ready;
                    Ok(InstallAction::Done)
                } else {
                    Err(self.out_of_order())
                }
            },
        }
    }

    /// Whether the installer waits for the source's answer.
    pub fn awaits_response(&self) -> (r: bool)
        ensures
            r == (spec_stage(self@) is AwaitingResponse),
    {
        self.state == State::Downloading && self.info.is_none()
    }

    /// Whether the installer waits for the download to answer.
    pub fn awaits_connection(&self) -> (r: bool)
        ensures
            r == (spec_stage(self@) is AwaitingConnection),
    {
        self.state == State::Downloading && self.info.is_some() && self.download.is_none()
    }

    /// Whether the installer waits for a read of the download's body.
    pub fn is_reading(&self) -> (r: bool)
        ensures
            r == (spec_stage(self@) is Reading),
    {
        self.state == State::Downloading && self.info.is_some() && match &self.download {
            Some(download) => !download.is_finished(),
            None => false,
        }
    }

    /// Whether the installer waits for the downloaded file's bytes.
    pub fn awaits_archive(&self) -> (r: bool)
        ensures
            r == (spec_stage(self@) is AwaitingArchive),
    {
        self.state == State::Downloaded && self.download.is_some()
    }

    /// Whether the installer waits for the extraction to be carried out.
    pub fn is_unpacking(&self) -> (r: bool)
        ensures
            r == (spec_stage(self@) is Unpacking),
    {
        self.state == State::Extracting
    }

    /// Whether the installer waits for the install to be closed.
    pub fn is_finishing(&self) -> (r: bool)
        ensures
            r == (spec_stage(self@) is Finishing),
    {
        self.state == State::Extracted
    }
}

/// An install asked for before `init` is turned down as out of order, and
/// nothing changes.
pub proof fn lemma_start_needs_init(
    before: InstallerView,
    after: InstallerView,
    r: Result<InstallAction, Error>,
)
    requires
        !before.initialized,
        spec_installed(before, InstallEvent::Start, after, r),
    ensures
        r is Err,
        r->Err_0 is NotInitialized,
        after == before,
{
}

/// Within one install the state only moves forward: no event but `Start`
/// takes it back.
pub proof fn lemma_state_moves_forward(
    before: InstallerView,
    event: InstallEvent,
    after: InstallerView,
    r: Result<InstallAction, Error>,
)
    requires
        !(event is Start),
        spec_installed(before, event, after, r),
    ensures
        after.state.spec_rank() >= before.state.spec_rank(),
{
}

/// Within one install the state goes one step at a time: an event other
/// than `Start` leaves it where it is or takes it to the next in the order
/// `Downloading`, `Downloaded`, `Extracting`, `Extracted`, `Ready`.
pub proof fn lemma_state_moves_one_step(
    before: InstallerView,
    event: InstallEvent,
    after: InstallerView,
    r: Result<InstallAction, Error>,
)
    requires
        !(event is Start),
        spec_installed(before, event, after, r),
    ensures
        after.state.spec_rank() == before.state.spec_rank() || after.state.spec_rank()
            == before.state.spec_rank() + 1,
{
}

/// The state becomes `Extracted` in one way only: the extraction was under
/// way, and the caller reports that it has been carried out.
pub proof fn lemma_extracted_after_unpacking(
    before: InstallerView,
    event: InstallEvent,
    after: InstallerView,
    r: Result<InstallAction, Error>,
)
    requires
        spec_installed(before, event, after, r),
        after.state == State::Extracted,
        before.state != State::Extracted,
    ensures
        event is Unpacked,
        before.state == State::Extracting,
        r is Ok,
{
}

/// An install that is reported as unpacked and then as closed passes
/// `Extracted` and ends at `Ready`.
pub proof fn lemma_extracted_then_ready(
    before: InstallerView,
    between: InstallerView,
    after: InstallerView,
    first: Result<InstallAction, Error>,
    second: Result<InstallAction, Error>,
)
    requires
        before.state == State::Extracting,
        spec_installed(before, InstallEvent::Unpacked, between, first),
        spec_installed(between, InstallEvent::Finished, after, second),
    ensures
        between.state == State::Extracted,
        after.state == State::Ready,
        first is Ok,
        second is Ok,
{
}

/// The state becomes `Ready` in one way only: everything was unpacked, and
/// the caller reports that the install has been closed.
pub proof fn lemma_ready_after_closing(
    before: InstallerView,
    event: InstallEvent,
    after: InstallerView,
    r: Result<InstallAction, Error>,
)
    requires
        spec_installed(before, event, after, r),
        after.state == State::Ready,
        before.state != State::Ready,
    ensures
        event is Finished,
        before.state == State::Extracted,
        r is Ok,
{
}

/// A step that fails leaves the installer as it was, but for a failure to
/// read the archive, which leaves it in `Extracting`: the state stays at the
/// phase that failed, and nothing is undone.
pub proof fn lemma_failure_stays(
    before: InstallerView,
    event: InstallEvent,
    after: InstallerView,
    r: Result<InstallAction, Error>,
)
    requires
        spec_installed(before, event, after, r),
        r is Err,
    ensures
        after == before || (event is Archive && after == (InstallerView {
            state: State::Extracting,
            ..before
        })),
{
}

/// No step touches what the installer was made and initialized with.
pub proof fn lemma_settings_stay(
    before: InstallerView,
    event: InstallEvent,
    after: InstallerView,
    r: Result<InstallAction, Error>,
)
    requires
        spec_installed(before, event, after, r),
    ensures
        after.dest == before.dest,
        after.temp == before.temp,
        after.binary == before.binary,
        after.version == before.version,
        after.platform == before.platform,
        after.binary_path == before.binary_path,
        after.initialized == before.initialized,
{
}

} // verus!
