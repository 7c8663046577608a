//! The extractor: which archive format a file name stands for, and, entry by
//! entry, what is to be created where and what progress to report. A zip or
//! tar.xz archive is handed over as bytes; the `zip`, `xz2` and `tar` crates
//! read it. A 7z archive is handed over as the entries that the caller read
//! out of it: its reader may panic on bytes that are no archive, and nothing
//! here may panic. Creating directories and writing files is the caller's
//! part.

use vstd::prelude::*;
use vstd::string::*;
use crate::error::Error;
use crate::paths::{join, parent, spec_join, spec_parent};
use crate::progress::{lemma_percent_monotone, lemma_percent_range, spec_percent, Percent};
use crate::text::ends_with;

verus! {

/// The archive formats that can be unpacked.
#[derive(Clone, Copy, Debug, PartialEq, Eq, Structural)]
pub enum ArchiveType {
    Zip,
    SevenZip,
    TarXz,
}

/// One progress report of an extraction.
#[derive(Clone, Debug, PartialEq, Eq)]
pub struct ExtractorProgress {
    pub name: String,
    pub current: u64,
    pub total: u64,
    pub percent: Percent,
}

/// One entry as the archive holds it: its name, the size it declares,
/// whether the archive marks it as a directory, and its unpacked bytes.
#[derive(Clone, Debug, PartialEq, Eq)]
pub struct ArchiveEntry {
    pub name: String,
    pub size: u64,
    pub directory: bool,
    pub data: Vec<u8>,
}

/// An entry as contracts see it: name, declared size, directory mark, bytes.
pub type EntryView = (Seq<char>, u64, bool, Seq<u8>);

/// What to do for one entry, and the report to hand out once it is done.
#[derive(Clone, Debug, PartialEq, Eq)]
pub struct ExtractStep {
    /// The directory to create, or the file to write.
    pub path: String,
    /// Whether `path` is a directory, to be created with all its parents.
    pub directory: bool,
    /// For a file, the directory that has to exist before it is written.
    pub parent: Option<String>,
    /// For a file, its contents.
    pub data: Vec<u8>,
    pub progress: ExtractorProgress,
}

/// A step as contracts see it.
pub struct StepView {
    pub path: Seq<char>,
    pub directory: bool,
    pub parent: Option<Seq<char>>,
    pub data: Seq<u8>,
    pub name: Seq<char>,
    pub current: u64,
    pub total: u64,
    pub percent: nat,
}

/// An archive to unpack, and where to.
#[derive(Clone, Debug)]
pub struct Extractor {
    input: String,
    output: String,
    content_type: String,
}

/// A zip archive held in memory, as the `zip` crate opens it.
#[verifier::external_type_specification]
#[verifier::external_body]
#[verifier::reject_recursive_types(R)]
pub struct ExZipArchive<R>(zip::ZipArchive<R>);

/// The standard library's reader over bytes in memory.
#[verifier::external_type_specification]
#[verifier::external_body]
#[verifier::reject_recursive_types(T)]
pub struct ExCursor<T>(std::io::Cursor<T>);

/// What an opened zip archive holds: for each index, the entry that reading
/// it gives, or nothing where reading it fails.
pub uninterp spec fn zip_reads(archive: zip::ZipArchive<std::io::Cursor<Vec<u8>>>) -> Seq<
    Option<EntryView>,
>;

/// What the `zip` crate opens `bytes` to: what the archive holds, or nothing
/// where it reports an error.
pub uninterp spec fn zip_opened(bytes: Seq<u8>) -> Option<Seq<Option<EntryView>>>;

/// The entries of a zip archive in index order; nothing where the archive
/// cannot be opened or one of its entries cannot be read.
pub open spec fn zip_listing(bytes: Seq<u8>) -> Option<Seq<EntryView>> {
    match zip_opened(bytes) {
        Some(reads) => if forall|i: int| 0 <= i < reads.len() ==> (#[trigger] reads[i]) is Some {
            Some(Seq::new(reads.len(), |i: int| reads[i].unwrap()))
        } else {
            None
        },
        None => None,
    }
}

/// What the `xz2` crate decodes `bytes` to, or nothing where it reports an
/// error.
pub uninterp spec fn xz_decoded(bytes: Seq<u8>) -> Option<Seq<u8>>;

/// What the `tar` crate reads out of `bytes`: the entries in stream order, or
/// nothing where it reports an error.
pub uninterp spec fn tar_listing(bytes: Seq<u8>) -> Option<Seq<EntryView>>;

/// The format that a file name stands for, by its suffix alone: `.zip`, then
/// `.7z`, then `.tar.xz`.
pub open spec fn spec_archive_type(filename: Seq<char>) -> Option<ArchiveType> {
    if ".zip"@.is_suffix_of(filename) {
        Some(ArchiveType::Zip)
    } else if ".7z"@.is_suffix_of(filename) {
        Some(ArchiveType::SevenZip)
    } else if ".tar.xz"@.is_suffix_of(filename) {
        Some(ArchiveType::TarXz)
    } else {
        None
    }
}

/// The entries of a list, each as contracts see it.
pub open spec fn entry_views(entries: Seq<ArchiveEntry>) -> Seq<EntryView> {
    entries.map_values(|e: ArchiveEntry| e@)
}

/// The steps of a list, each as contracts see it.
pub open spec fn step_views(steps: Seq<ExtractStep>) -> Seq<StepView> {
    steps.map_values(|s: ExtractStep| s@)
}

/// Whether an entry is a directory. In a zip the name decides: it ends in
/// `/`. The other formats mark their directories.
pub open spec fn spec_is_directory(kind: ArchiveType, entry: EntryView) -> bool {
    match kind {
        ArchiveType::Zip => "/"@.is_suffix_of(entry.0),
        _ => entry.2,
    }
}

/// The step for the entry at `index` of `count`. It goes under `output` by
/// its own name. Zip and tar count entries: the total is the number of
/// entries, the percentage the share of entries done. 7z reports each entry
/// by itself: the total is the entry's declared size, the percentage the
/// share of it that was unpacked.
pub open spec fn spec_step(
    kind: ArchiveType,
    output: Seq<char>,
    entry: EntryView,
    index: nat,
    count: nat,
) -> StepView {
    let path = spec_join(output, entry.0);
    let directory = spec_is_directory(kind, entry);
    StepView {
        path,
        directory,
        parent: if directory {
            None
        } else {
            spec_parent(path)
        },
        data: entry.3,
        name: entry.0,
        current: entry.1,
        total: match kind {
            ArchiveType::SevenZip => entry.1,
            _ => count as u64,
        },
        percent: match kind {
            ArchiveType::SevenZip => spec_percent(entry.3.len(), entry.1 as nat),
            _ => spec_percent(index + 1, count),
        },
    }
}

/// The steps for all entries of an archive, in their order.
pub open spec fn spec_plan(kind: ArchiveType, output: Seq<char>, entries: Seq<EntryView>) -> Seq<
    StepView,
> {
    Seq::new(
        entries.len(),
        |i: int| spec_step(kind, output, entries[i], i as nat, entries.len()),
    )
}

/// What the crate for `kind` reads out of `bytes`. A `.tar.xz` is decoded,
/// then listed. A 7z archive is not read from bytes here: there is nothing
/// for it.
pub open spec fn spec_listing(kind: ArchiveType, bytes: Seq<u8>) -> Option<Seq<EntryView>> {
    match kind {
        ArchiveType::Zip => zip_listing(bytes),
        ArchiveType::SevenZip => None,
        ArchiveType::TarXz => match xz_decoded(bytes) {
            Some(tar) => tar_listing(tar),
            None => None,
        },
    }
}

/// Whether `e` is the error for a file name with no known suffix, carrying
/// that `filename`.
pub open spec fn is_unsupported(e: Error, filename: Seq<char>) -> bool {
    e matches Error::UnsupportedArchiveType(name) && name@ == filename
}

/// Whether `e` is the error for a 7z archive handed over as bytes, carrying
/// the archive's `filename`.
pub open spec fn is_unread(e: Error, filename: Seq<char>) -> bool {
    e matches Error::SevenZipError(name) && name@ == filename
}

/// Whether `e` is the error that reading an archive of `kind` ends in.
pub open spec fn is_read_error(kind: ArchiveType, e: Error) -> bool {
    match kind {
        ArchiveType::Zip => e is ZipError,
        ArchiveType::SevenZip => e is SevenZipError,
        ArchiveType::TarXz => e is Io,
    }
}

impl View for ArchiveEntry {
    type V = EntryView;

    open spec fn view(&self) -> EntryView {
        (self.name@, self.size, self.directory, self.data@)
    }
}

impl View for ExtractStep {
    type V = StepView;

    open spec fn view(&self) -> StepView {
        StepView {
            path: self.path@,
            directory: self.directory,
            parent: match self.parent {
                Some(p) => Some(p@),
                None => None,
            },
            data: self.data@,
            name: self.progress.name@,
            current: self.progress.current,
            total: self.progress.total,
            percent: self.progress.percent@,
        }
    }
}

impl ArchiveType {
    /// The media type of the format.
    pub open spec fn spec_content_type(&self) -> Seq<char> {
        match self {
            ArchiveType::Zip => "application/zip"@,
            ArchiveType::SevenZip => "application/x-7z-compressed"@,
            ArchiveType::TarXz => "application/x-xz"@,
        }
    }

    /// The media type of the format.
    pub fn content_type(&self) -> (r: String)
        ensures
            r@ == self.spec_content_type(),
    {
        match self {
            ArchiveType::Zip => "application/zip".to_owned(),
            ArchiveType::SevenZip => "application/x-7z-compressed".to_owned(),
            ArchiveType::TarXz => "application/x-xz".to_owned(),
        }
    }

    /// Whether an archive of this format is read from its bytes here. A 7z
    /// archive is not: the caller reads it and hands over its entries.
    pub open spec fn spec_reads_bytes(&self) -> bool {
        !(self is SevenZip)
    }

    /// Whether an archive of this format is read from its bytes here.
    pub fn reads_bytes(&self) -> (r: bool)
        ensures
            r == self.spec_reads_bytes(),
    {
        match self {
            ArchiveType::SevenZip => false,
            _ => true,
        }
    }

    /// The format that `filename` stands for. Only the suffix counts; a name
    /// with no known suffix is turned down, and the error carries it.
    pub fn from_filename(filename: &str) -> (r: Result<ArchiveType, Error>)
        ensures
            match r {
                Ok(kind) => spec_archive_type(filename@) == Some(kind),
                Err(e) => spec_archive_type(filename@) is None && is_unsupported(e, filename@),
            },
    {
        if ends_with(filename, ".zip") {
            Ok(ArchiveType::Zip)
        } else if ends_with(filename, ".7z") {
            Ok(ArchiveType::SevenZip)
        } else if ends_with(filename, ".tar.xz") {
            Ok(ArchiveType::TarXz)
        } else {
            Err(Error::UnsupportedArchiveType(filename.to_owned()))
        }
    }
}

/// Opens a zip archive over a copy of `bytes` with `zip::ZipArchive::new`.
/// The contract claims that the outcome depends on the bytes alone, and
/// gives what the archive holds its name.
#[verifier::external_body]
fn zip_open(bytes: &Vec<u8>) -> (r: Result<zip::ZipArchive<std::io::Cursor<Vec<u8>>>, String>)
    ensures
        match r {
            Ok(archive) => zip_opened(bytes@) == Some(zip_reads(archive)),
            Err(_) => zip_opened(bytes@) is None,
        },
{
    zip::ZipArchive::new(std::io::Cursor::new(bytes.clone())).map_err(|e| e.to_string())
}

/// The number of entries, from `zip::ZipArchive::len`.
#[verifier::external_body]
fn zip_len(archive: &zip::ZipArchive<std::io::Cursor<Vec<u8>>>) -> (n: usize)
    ensures
        n == zip_reads(*archive).len(),
{
    archive.len()
}

/// Reads the entry at `index` with `zip::ZipArchive::by_index`, taking its
/// name, its declared size, its directory mark and, through
/// `Read::read_to_end`, its bytes. An index past the end is an error of the
/// crate, as is an entry that cannot be read. Reading changes nothing of
/// what the archive holds.
#[verifier::external_body]
fn zip_entry(archive: &mut zip::ZipArchive<std::io::Cursor<Vec<u8>>>, index: usize) -> (r: Result<
    ArchiveEntry,
    String,
>)
    ensures
        zip_reads(*final(archive)) == zip_reads(*old(archive)),
        match r {
            Ok(entry) => index < zip_reads(*old(archive)).len() && zip_reads(
                *old(archive),
            )[index as int] == Some(entry@),
            Err(_) => index < zip_reads(*old(archive)).len() ==> zip_reads(
                *old(archive),
            )[index as int] is None,
        },
{
    let read = |archive: &mut zip::ZipArchive<std::io::Cursor<Vec<u8>>>| {
        let mut file = archive.by_index(index)?;
        let mut data = Vec::new();
        std::io::Read::read_to_end(&mut file, &mut data)?;
        let name = file.name()?.into_owned();
        zip::result::ZipResult::Ok(ArchiveEntry { name, size: file.size(), directory: file.is_dir(), data })
    };
    read(archive).map_err(|e| e.to_string())
}

/// The entries of the zip archive in `bytes`, read one by one in index order.
fn zip_entries(bytes: &Vec<u8>) -> (r: Result<Vec<ArchiveEntry>, String>)
    ensures
        match r {
            Ok(entries) => zip_listing(bytes@) == Some(entry_views(entries@)),
            Err(_) => zip_listing(bytes@) is None,
        },
{
    let mut archive = match zip_open(bytes) {
        Ok(archive) => archive,
        Err(text) => {
            return Err(text);
        },
    };
    let ghost reads = zip_reads(archive);
    let count = zip_len(&archive);
    let mut entries: Vec<ArchiveEntry> = Vec::new();
    let mut index: usize = 0;
    while index < count
        invariant
            index <= count,
            count == reads.len(),
            zip_reads(archive) == reads,
            zip_opened(bytes@) == Some(reads),
            entries.len() == index,
            forall|i: int| 0 <= i < index ==> (#[trigger] reads[i]) == Some(entries[i]@),
        decreases count - index,
    {
        match zip_entry(&mut archive, index) {
            Ok(entry) => {
                entries.push(entry);
            },
            Err(text) => {
                assert(reads[index as int] is None);
                return Err(text);
            },
        }
        index += 1;
    }
    assert(entry_views(entries@) =~= Seq::new(reads.len(), |i: int| reads[i].unwrap()));
    Ok(entries)
}

/// Decodes an xz stream held in memory with `xz2::read::XzDecoder`, read to
/// its end. The contract claims that the outcome depends on the bytes alone,
/// and gives it its name.
#[verifier::external_body]
fn xz_decode(bytes: &Vec<u8>) -> (r: Result<Vec<u8>, String>)
    ensures
        match r {
            Ok(plain) => xz_decoded(bytes@) == Some(plain@),
            Err(_) => xz_decoded(bytes@) is None,
        },
{
    let mut plain = Vec::new();
    let mut decoder = xz2::read::XzDecoder::new(bytes.as_slice());
    std::io::Read::read_to_end(&mut decoder, &mut plain).map_err(|e| e.to_string())?;
    Ok(plain)
}

/// Reads a tar stream held in memory with `tar::Archive`: `new`, then
/// `entries`, taking of each entry the bytes of its path (as text, what is
/// no UTF-8 replaced), the size and the directory mark of its header, and
/// its bytes. The contract claims that the outcome depends
/// on the bytes alone, and gives it its name.
#[verifier::external_body]
fn tar_entries(bytes: &Vec<u8>) -> (r: Result<Vec<ArchiveEntry>, String>)
    ensures
        match r {
            Ok(entries) => tar_listing(bytes@) == Some(entry_views(entries@)),
            Err(_) => tar_listing(bytes@) is None,
        },
{
    let read = |bytes: &[u8]| -> std::io::Result<Vec<ArchiveEntry>> {
        tar::Archive::new(bytes).entries()?.map(|entry| {
            let mut entry = entry?;
            let mut data = Vec::new();
            std::io::Read::read_to_end(&mut entry, &mut data)?;
            let name = String::from_utf8_lossy(&entry.path_bytes()).into_owned();
            let directory = entry.header().entry_type().is_dir();
            Ok(ArchiveEntry { name, size: entry.header().size()?, directory, data })
        }).collect()
    };
    read(bytes.as_slice()).map_err(|e| e.to_string())
}

/// The step for one entry.
fn step_for(kind: ArchiveType, output: &str, entry: ArchiveEntry, index: usize, count: usize) -> (s:
    ExtractStep)
    requires
        index < count,
    ensures
        s@ == spec_step(kind, output@, entry@, index as nat, count as nat),
        s.progress.percent.wf(),
{
    let directory = match kind {
        ArchiveType::Zip => ends_with(entry.name.as_str(), "/"),
        _ => entry.directory,
    };
    let path = join(output, entry.name.as_str());
    let parent_dir = if directory {
        None
    } else {
        match parent(path.as_str()) {
            Some(dir) => Some(dir.to_owned()),
            None => None,
        }
    };
    let total = match kind {
        ArchiveType::SevenZip => entry.size,
        _ => count as u64,
    };
    let percent = match kind {
        ArchiveType::SevenZip => Percent::of(entry.data.len() as u64, entry.size),
        _ => Percent::of(index as u64 + 1, count as u64),
    };
    ExtractStep {
        path,
        directory,
        parent: parent_dir,
        data: entry.data,
        progress: ExtractorProgress { name: entry.name, current: entry.size, total, percent },
    }
}

/// The steps that unpack `entries`, read from an archive of `kind`, under
/// `output`: one for each entry, in their order.
pub fn plan(kind: ArchiveType, output: &str, entries: Vec<ArchiveEntry>) -> (steps: Vec<ExtractStep>)
    ensures
        step_views(steps@) == spec_plan(kind, output@, entry_views(entries@)),
        steps.len() == entries.len(),
        forall|i: int| 0 <= i < steps.len() ==> (#[trigger] steps[i]).progress.percent.wf(),
{
    let count = entries.len();
    let ghost all = entries@;
    let mut steps: Vec<ExtractStep> = Vec::new();
    for entry in it: entries.into_iter()
        invariant
            it.seq() == all,
            count == all.len(),
            steps.len() == it.index(),
            forall|i: int|
                0 <= i < steps.len() ==> (#[trigger] steps[i])@ == spec_step(
                    kind,
                    output@,
                    all[i]@,
                    i as nat,
                    count as nat,
                ) && steps[i].progress.percent.wf(),
    {
        let index = steps.len();
        let step = step_for(kind, output, entry, index, count);
        steps.push(step);
    }
    assert(step_views(steps@) =~= spec_plan(kind, output@, entry_views(all)));
    steps
}

impl Extractor {
    /// The archive's file name.
    pub closed spec fn spec_input(&self) -> Seq<char> {
        self.input@
    }

    /// The directory to unpack into.
    pub closed spec fn spec_output(&self) -> Seq<char> {
        self.output@
    }

    /// The media type noted for the archive.
    pub closed spec fn spec_content_type(&self) -> Seq<char> {
        self.content_type@
    }

    /// An extractor that has not looked at its input yet.
    fn new(input: String, output: String) -> (r: Extractor)
        ensures
            r.spec_input() == input@,
            r.spec_output() == output@,
            r.spec_content_type() == Seq::<char>::empty(),
    {
        Extractor { input, output, content_type: String::new() }
    }

    /// An extractor for the archive `input`, to unpack under `output`. The
    /// format is read off the file name here; a name with no known suffix is
    /// turned down.
    pub fn load(input: String, output: String) -> (r: Result<Extractor, Error>)
        ensures
            match r {
                Ok(x) => {
                    &&& spec_archive_type(input@) matches Some(kind)
                    &&& x.spec_input() == input@
                    &&& x.spec_output() == output@
                    &&& x.spec_content_type() == kind.spec_content_type()
                },
                Err(e) => spec_archive_type(input@) is None && is_unsupported(e, input@),
            },
    {
        let mut this = Extractor::new(input, output);
        match ArchiveType::from_filename(this.input.as_str()) {
            Ok(kind) => {
                this.content_type = kind.content_type();
                Ok(this)
            },
            Err(e) => Err(e),
        }
    }

    /// The archive's file name.
    pub fn input(&self) -> (r: &String)
        ensures
            r@ == self.spec_input(),
    {
        &self.input
    }

    /// The directory to unpack into.
    pub fn output(&self) -> (r: &String)
        ensures
            r@ == self.spec_output(),
    {
        &self.output
    }

    /// The media type noted for the archive.
    pub fn content_type(&self) -> (r: &String)
        ensures
            r@ == self.spec_content_type(),
    {
        &self.content_type
    }

    /// Reads the archive, given as the bytes of the input file, and says
    /// step by step what to create under the output directory and what to
    /// report. Nothing is written here. It fails where the file name stands
    /// for no known format, and where the crate for the format cannot read
    /// the bytes. A 7z archive is not read from bytes: for it this fails,
    /// the error carrying the archive's name, and `extract_entries` takes
    /// what the caller read out of it.
    pub fn extract(&self, archive: &Vec<u8>) -> (r: Result<Vec<ExtractStep>, Error>)
        ensures
            match r {
                Ok(steps) => match spec_archive_type(self.spec_input()) {
                    Some(kind) => match spec_listing(kind, archive@) {
                        Some(entries) => step_views(steps@) == spec_plan(
                            kind,
                            self.spec_output(),
                            entries,
                        ),
                        None => false,
                    },
                    None => false,
                },
                Err(e) => match spec_archive_type(self.spec_input()) {
                    Some(kind) => spec_listing(kind, archive@) is None && is_read_error(kind, e),
                    None => is_unsupported(e, self.spec_input()),
                },
            },
            spec_archive_type(self.spec_input()) == Some(ArchiveType::SevenZip) ==> match r {
                Err(e) => is_unread(e, self.spec_input()),
                Ok(_) => false,
            },
    {
        let kind = match ArchiveType::from_filename(self.input.as_str()) {
            Ok(kind) => kind,
            Err(e) => {
                return Err(e);
            },
        };
        let entries = match kind {
            ArchiveType::Zip => match zip_entries(archive) {
                Ok(entries) => entries,
                Err(text) => {
                    return Err(Error::ZipError(text));
                },
            },
            ArchiveType::SevenZip => {
                return Err(Error::SevenZipError(self.input.clone()));
            },
            ArchiveType::TarXz => {
                let tar = match xz_decode(archive) {
                    Ok(tar) => tar,
                    Err(text) => {
                        return Err(Error::Io(text));
                    },
                };
                match tar_entries(&tar) {
                    Ok(entries) => entries,
                    Err(text) => {
                        return Err(Error::Io(text));
                    },
                }
            },
        };
        Ok(plan(kind, self.output.as_str(), entries))
    }

    /// Says step by step what to create under the output directory, and
    /// what to report, for the entries that the caller read out of the
    /// archive, in their order. It fails only where the file name stands for
    /// no known format.
    pub fn extract_entries(&self, entries: Vec<ArchiveEntry>) -> (r: Result<
        Vec<ExtractStep>,
        Error,
    >)
        ensures
            match r {
                Ok(steps) => match spec_archive_type(self.spec_input()) {
                    Some(kind) => step_views(steps@) == spec_plan(
                        kind,
                        self.spec_output(),
                        entry_views(entries@),
                    ),
                    None => false,
                },
                Err(e) => spec_archive_type(self.spec_input()) is None && is_unsupported(
                    e,
                    self.spec_input(),
                ),
            },
    {
        match ArchiveType::from_filename(self.input.as_str()) {
            Ok(kind) => Ok(plan(kind, self.output.as_str(), entries)),
            Err(e) => Err(e),
        }
    }
}

/// A plan has one step for each entry, and no percentage above the full
/// hundred. Where entries are counted (zip and tar), the percentages never
/// fall from one step to the next, and the last step shows the full hundred.
pub proof fn lemma_plan_progress(kind: ArchiveType, output: Seq<char>, entries: Seq<EntryView>)
    ensures
        spec_plan(kind, output, entries).len() == entries.len(),
        forall|i: int|
            0 <= i < entries.len() ==> (#[trigger] spec_plan(kind, output, entries)[i]).percent
                <= 1000,
        kind != ArchiveType::SevenZip ==> forall|i: int, j: int|
            0 <= i <= j < entries.len() ==> (#[trigger] spec_plan(kind, output, entries)[i]).percent
                <= (#[trigger] spec_plan(kind, output, entries)[j]).percent,
        kind != ArchiveType::SevenZip && entries.len() > 0 ==> spec_plan(
            kind,
            output,
            entries,
        ).last().percent == 1000,
{
    let steps = spec_plan(kind, output, entries);
    let count = entries.len();
    assert forall|i: int| 0 <= i < count implies (#[trigger] steps[i]).percent <= 1000 by {
        lemma_percent_range(entries[i].3.len(), entries[i].1 as nat);
        lemma_percent_range((i + 1) as nat, count);
    }
    if kind != ArchiveType::SevenZip {
        assert forall|i: int, j: int| 0 <= i <= j < count implies (#[trigger] steps[i]).percent
            <= (#[trigger] steps[j]).percent by {
            lemma_percent_monotone((i + 1) as nat, (j + 1) as nat, count);
        }
        if count > 0 {
            lemma_percent_range(count, count);
        }
    }
}

} // verus!
