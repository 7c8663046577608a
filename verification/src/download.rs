//! The downloader's decisions: where the file goes, how many bytes to expect,
//! and what to report after each chunk. Reading the network and writing the
//! file is the caller's part; it tells the [`Download`] how many bytes each
//! read brought.

use vstd::prelude::*;
use crate::paths::{
    file_name, join, lemma_after_last, lemma_join_file_name, names_file, spec_file_name, spec_join,
};
use crate::progress::{spec_percent, Percent};
use crate::text::{parse_u64, spec_parse_u64};

verus! {

/// One progress report of a download: bytes so far, bytes declared, and
/// their share.
#[derive(Clone, Copy, Debug, PartialEq, Eq)]
pub struct DownloadStatus {
    pub current: u64,
    pub total: u64,
    pub percent: Percent,
}

/// What to do after a read.
#[derive(Clone, Copy, Debug, PartialEq, Eq)]
pub enum DownloadStep {
    /// Write the bytes just read to the file, then hand out this report.
    Wrote(DownloadStatus),
    /// The body has ended: close the file.
    Finished,
}

/// The state of a download as contracts see it.
pub struct DownloadView {
    pub dest: Seq<char>,
    pub total: u64,
    pub current: u64,
    pub finished: bool,
}

/// A download under way.
#[derive(Clone, Debug)]
pub struct Download {
    dest: String,
    total: u64,
    current: u64,
    finished: bool,
}

/// The declared size of a body: the number in the `Content-Length` header,
/// 0 where the header is missing or is no number that fits in 64 bits.
pub open spec fn spec_content_length(header: Option<Seq<char>>) -> u64 {
    match header {
        Some(text) => match spec_parse_u64(text) {
            Some(n) => n,
            None => 0,
        },
        None => 0,
    }
}

/// The file name that a URL gives: its final segment where that names a
/// file, else nothing.
pub open spec fn spec_url_name(url: Seq<char>) -> Seq<char> {
    if names_file(url) {
        spec_file_name(url)
    } else {
        Seq::empty()
    }
}

/// Where a download is written: `output` itself where it names a file, else
/// the file name of `url` under `output`.
pub open spec fn spec_destination(url: Seq<char>, output: Seq<char>) -> Seq<char> {
    if names_file(output) {
        output
    } else {
        spec_join(output, spec_url_name(url))
    }
}

/// The download after a read of `n` bytes: a read of nothing ends it, any
/// other adds to the count, and nothing changes once it has ended.
pub open spec fn spec_on_read(d: DownloadView, n: nat) -> DownloadView {
    if d.finished {
        d
    } else if n == 0 {
        DownloadView { finished: true, ..d }
    } else {
        DownloadView { current: (d.current + n) as u64, ..d }
    }
}

/// The download after a run of reads, one after the other.
pub open spec fn spec_after_reads(d: DownloadView, reads: Seq<nat>) -> DownloadView
    decreases reads.len(),
{
    if reads.len() == 0 {
        d
    } else {
        spec_on_read(spec_after_reads(d, reads.drop_last()), reads.last())
    }
}

/// The bytes that a run of reads brought in all.
pub open spec fn spec_sum(reads: Seq<nat>) -> nat
    decreases reads.len(),
{
    if reads.len() == 0 {
        0
    } else {
        spec_sum(reads.drop_last()) + reads.last()
    }
}

/// The declared size that a `Content-Length` header gives.
pub fn content_length(header: Option<&str>) -> (total: u64)
    ensures
        total == spec_content_length(
            match header {
                Some(text) => Some(text@),
                None => None,
            },
        ),
{
    match header {
        Some(text) => match parse_u64(text) {
            Some(n) => n,
            None => 0,
        },
        None => 0,
    }
}

/// The final segment of `path`, where the path names a file.
pub fn get_filename_from_path<'a>(path: &'a str) -> (r: Option<&'a str>)
    ensures
        match r {
            Some(name) => names_file(path@) && name@ == spec_file_name(path@),
            None => !names_file(path@),
        },
{
    file_name(path)
}

/// Whether `path` names a file: its final segment is neither empty nor
/// `..`.
pub fn filename_exists_in_path(path: &str) -> (r: bool)
    ensures
        r == names_file(path@),
{
    file_name(path).is_some()
}

/// Where the body of `url` is written, given the `output` the caller asked
/// for.
pub fn destination(url: &str, output: &str) -> (dest: String)
    ensures
        dest@ == spec_destination(url@, output@),
{
    if filename_exists_in_path(output) {
        output.to_owned()
    } else {
        match get_filename_from_path(url) {
            Some(name) => join(output, name),
            None => {
                proof {
                    reveal_strlit("");
                    assert(""@ =~= spec_url_name(url@));
                }
                join(output, "")
            },
        }
    }
}

impl View for Download {
    type V = DownloadView;

    closed spec fn view(&self) -> DownloadView {
        DownloadView {
            dest: self.dest@,
            total: self.total,
            current: self.current,
            finished: self.finished,
        }
    }
}

impl Download {
    /// A download of `url` towards `output`, the response's `Content-Length`
    /// header in hand: nothing received yet.
    pub fn begin(url: &str, output: &str, header: Option<&str>) -> (d: Download)
        ensures
            d@.dest == spec_destination(url@, output@),
            d@.total == spec_content_length(
                match header {
                    Some(text) => Some(text@),
                    None => None,
                },
            ),
            d@.current == 0,
            !d@.finished,
    {
        Download {
            dest: destination(url, output),
            total: content_length(header),
            current: 0,
            finished: false,
        }
    }

    /// The file that the body is written to. Its directory has to exist
    /// before the file is opened.
    pub fn destination(&self) -> (dest: &String)
        ensures
            dest@ == self@.dest,
    {
        &self.dest
    }

    /// The declared size, 0 where it is unknown.
    pub fn total(&self) -> (total: u64)
        ensures
            total == self@.total,
    {
        self.total
    }

    /// The bytes received so far.
    pub fn current(&self) -> (current: u64)
        ensures
            current == self@.current,
    {
        self.current
    }

    /// Whether the body has ended.
    pub fn is_finished(&self) -> (finished: bool)
        ensures
            finished == self@.finished,
    {
        self.finished
    }

    /// The report for the bytes received so far.
    pub fn status(&self) -> (s: DownloadStatus)
        ensures
            s.current == self@.current,
            s.total == self@.total,
            s.percent@ == spec_percent(self@.current as nat, self@.total as nat),
            s.percent.wf(),
    {
        DownloadStatus {
            current: self.current,
            total: self.total,
            percent: Percent::of(self.current, self.total),
        }
    }

    /// Takes note of a read that brought `n` bytes. A read of nothing ends
    /// the download; any other is to be written and reported. The count of
    /// bytes has to fit in 64 bits.
    pub fn on_read(&mut self, n: usize) -> (step: DownloadStep)
        requires
            !old(self)@.finished ==> old(self)@.current + n <= u64::MAX,
        ensures
            final(self)@ == spec_on_read(old(self)@, n as nat),
            final(self)@.current >= old(self)@.current,
            match step {
                DownloadStep::Finished => old(self)@.finished || n == 0,
                DownloadStep::Wrote(s) => {
                    &&& !old(self)@.finished
                    &&& n > 0
                    &&& s.current == old(self)@.current + n
                    &&& s.total == old(self)@.total
                    &&& s.percent@ == spec_percent(s.current as nat, s.total as nat)
                    &&& s.percent.wf()
                },
            },
    {
        if self.finished {
            return DownloadStep::Finished;
        }
        if n == 0 {
            self.finished = true;
            return DownloadStep::Finished;
        }
        self.current = self.current + n as u64;
        DownloadStep::Wrote(self.status())
    }
}

/// The count of bytes never goes down, whatever is read.
pub proof fn lemma_current_never_falls(d: DownloadView, n: nat)
    requires
        d.current + n <= u64::MAX,
    ensures
        spec_on_read(d, n).current >= d.current,
        spec_on_read(d, n).total == d.total,
        spec_on_read(d, n).dest == d.dest,
{
}

/// After a run of reads that each brought something, a download that began
/// at nothing has counted every byte; and no count on the way was larger.
pub proof fn lemma_all_bytes_counted(d: DownloadView, reads: Seq<nat>)
    requires
        !d.finished,
        d.current == 0,
        forall|i: int| 0 <= i < reads.len() ==> reads[i] > 0,
        spec_sum(reads) <= u64::MAX,
    ensures
        spec_after_reads(d, reads).current == spec_sum(reads),
        spec_after_reads(d, reads).total == d.total,
        !spec_after_reads(d, reads).finished,
        forall|k: int|
            0 <= k <= reads.len() ==> (#[trigger] spec_after_reads(d, reads.take(k))).current
                <= spec_sum(reads),
    decreases reads.len(),
{
    if reads.len() == 0 {
        assert forall|k: int| 0 <= k <= reads.len() implies (#[trigger] spec_after_reads(
            d,
            reads.take(k),
        )).current <= spec_sum(reads) by {
            assert(reads.take(k) =~= reads);
        }
    } else {
        let front = reads.drop_last();
        lemma_all_bytes_counted(d, front);
        assert forall|k: int| 0 <= k <= reads.len() implies (#[trigger] spec_after_reads(
            d,
            reads.take(k),
        )).current <= spec_sum(reads) by {
            if k == reads.len() {
                assert(reads.take(k) =~= reads);
            } else {
                assert(reads.take(k) =~= front.take(k));
            }
        }
    }
}

/// The read of nothing that ends a download leaves the count as it is.
pub proof fn lemma_end_keeps_count(d: DownloadView)
    ensures
        spec_on_read(d, 0).current == d.current,
        spec_on_read(d, 0).finished,
{
}

/// A body that brought exactly what was declared shows as the full hundred
/// percent; a body of undeclared size shows as zero percent throughout.
pub proof fn lemma_percent_at_the_ends(current: nat, total: nat)
    ensures
        total > 0 && current == total ==> spec_percent(current, total) == 1000,
        total == 0 ==> spec_percent(current, total) == 0,
        spec_content_length(None) == 0,
{
}

/// A download that goes under a directory keeps the file name of its URL,
/// and with it the suffix that tells the archive's format.
pub proof fn lemma_destination_keeps_name(url: Seq<char>, output: Seq<char>)
    requires
        !names_file(output),
        names_file(url),
    ensures
        spec_file_name(spec_destination(url, output)) == spec_file_name(url),
        names_file(spec_destination(url, output)),
{
    lemma_after_last(url, '/');
    lemma_join_file_name(output, spec_file_name(url));
}

} // verus!
