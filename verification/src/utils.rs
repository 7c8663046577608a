//! Small tools around the binary: reading the time stamps that it prints,
//! and picking it out of the directories of a search path.

use core::time::Duration;
use vstd::prelude::*;
use vstd::string::*;
use crate::paths::{join, spec_join};
use crate::sources::Os;
use crate::text::{
    concat_str, ends_with, find_char_from, parse_u64, spec_find_from, spec_parse_u64, to_chars,
};

verus! {

/// The pattern of a time stamp: hours, minutes, seconds and hundredths, two
/// digits each.
pub const TIME_PATTERN: &'static str = "(\\d{2}):(\\d{2}):(\\d{2})\\.(\\d{2})";

/// The time stamp handed out where a text holds none.
pub const NO_TIME: &'static str = "00:00:00.00";

/// What `std::time::Duration::new` makes of whole seconds and nanoseconds.
pub uninterp spec fn duration_of(secs: u64, nanos: u32) -> Duration;

/// What the `regex` crate finds for `pattern` in `text`: the groups of the
/// first match, the whole match first, each with its text where it took
/// part; nothing where there is no match or `pattern` is no pattern.
pub uninterp spec fn regex_groups(pattern: Seq<char>, text: Seq<char>) -> Option<
    Seq<Option<Seq<char>>>,
>;

/// The four fields of a time stamp, as they stand in the text.
pub struct TimeFields {
    pub hours: Seq<char>,
    pub minutes: Seq<char>,
    pub seconds: Seq<char>,
    pub millis: Seq<char>,
}

/// A directory of a search path, and whether the file looked for is in it.
#[derive(Clone, Debug, PartialEq, Eq)]
pub struct SearchDir {
    pub path: String,
    pub has_file: bool,
}

/// A place where the binary was found.
#[derive(Clone, Debug, PartialEq, Eq)]
pub struct FoundPath {
    pub path: String,
    pub binary: String,
    pub full_path: String,
}

/// All the places where the binary was found.
pub type FoundPaths = Vec<FoundPath>;

/// A found place as contracts see it.
pub struct FoundView {
    pub path: Seq<char>,
    pub binary: Seq<char>,
    pub full_path: Seq<char>,
}

impl View for FoundPath {
    type V = FoundView;

    open spec fn view(&self) -> FoundView {
        FoundView { path: self.path@, binary: self.binary@, full_path: self.full_path@ }
    }
}

/// The fields of `hours:minutes:seconds.millis`. The text is cut at its
/// colons, and the third piece at its dots; pieces after the third, and
/// after the second of those, are passed over. There are no fields where a
/// colon or the dot is missing.
pub open spec fn spec_time_fields(s: Seq<char>) -> Option<TimeFields> {
    let a = spec_find_from(s, ':', 0);
    let b = spec_find_from(s, ':', a + 1);
    let c = spec_find_from(s, ':', b + 1);
    if a >= s.len() || b >= s.len() {
        None
    } else {
        let third = s.subrange(b + 1, c);
        let d = spec_find_from(third, '.', 0);
        let e = spec_find_from(third, '.', d + 1);
        if d >= third.len() {
            None
        } else {
            Some(
                TimeFields {
                    hours: s.subrange(0, a),
                    minutes: s.subrange(a + 1, b),
                    seconds: third.subrange(0, d),
                    millis: third.subrange(d + 1, e),
                },
            )
        }
    }
}

/// The whole seconds and the milliseconds of a time stamp: each field a
/// number, the hours and minutes turned into seconds. There is no value
/// where a field is no number, or the seconds do not fit in 64 bits.
pub open spec fn spec_time(s: Seq<char>) -> Option<(u64, u64)> {
    match spec_time_fields(s) {
        Some(f) => match (
            spec_parse_u64(f.hours),
            spec_parse_u64(f.minutes),
            spec_parse_u64(f.seconds),
            spec_parse_u64(f.millis),
        ) {
            (Some(h), Some(m), Some(sec), Some(ms)) => if h * 3600 + m * 60 + sec + ms / 1000
                <= u64::MAX {
                Some(((h * 3600 + m * 60 + sec) as u64, ms))
            } else {
                None
            },
            _ => None,
        },
        None => None,
    }
}

/// The duration of whole seconds and milliseconds put together.
pub open spec fn spec_duration(secs: u64, millis: u64) -> Duration {
    duration_of((secs + millis / 1000) as u64, ((millis % 1000) * 1000000) as u32)
}

/// The groups of a match, each as contracts see it.
pub open spec fn group_views(groups: Seq<Option<String>>) -> Seq<Option<Seq<char>>> {
    groups.map_values(
        |g: Option<String>|
            match g {
                Some(text) => Some(text@),
                None => None,
            },
    )
}

/// The time stamp that the groups of a match write: the four groups after
/// the whole match, with colons and a dot between them. Where there is no
/// match of four groups, the time stamp of nothing.
pub open spec fn spec_time_text(groups: Option<Seq<Option<Seq<char>>>>) -> Seq<char> {
    match groups {
        Some(g) => if g.len() == 5 && g[1] is Some && g[2] is Some && g[3] is Some && g[4]
            is Some {
            g[1].unwrap() + ":"@ + g[2].unwrap() + ":"@ + g[3].unwrap() + "."@ + g[4].unwrap()
        } else {
            NO_TIME@
        },
        None => NO_TIME@,
    }
}

/// The file name of a binary on `os`: Windows wants `.exe` at its end.
pub open spec fn spec_executable_name(binary: Seq<char>, os: Os) -> Seq<char> {
    if os == Os::Windows && !".exe"@.is_suffix_of(binary) {
        binary + ".exe"@
    } else {
        binary
    }
}

/// Whether `path` is among the places found so far.
pub open spec fn spec_seen(found: Seq<FoundView>, path: Seq<char>) -> bool {
    exists|k: int| 0 <= k < found.len() && (#[trigger] found[k]).path == path
}

/// The places where `name` was found: the directories that hold the file,
/// in their order, each once.
pub open spec fn spec_found(dirs: Seq<SearchDir>, name: Seq<char>) -> Seq<FoundView>
    decreases dirs.len(),
{
    if dirs.len() == 0 {
        Seq::empty()
    } else {
        let before = spec_found(dirs.drop_last(), name);
        let dir = dirs.last();
        if dir.has_file && !spec_seen(before, dir.path@) {
            before.push(
                FoundView {
                    path: dir.path@,
                    binary: name,
                    full_path: spec_join(dir.path@, name),
                },
            )
        } else {
            before
        }
    }
}

/// The places found, each as contracts see it.
pub open spec fn found_views(found: Seq<FoundPath>) -> Seq<FoundView> {
    found.map_values(|f: FoundPath| f@)
}

/// Makes a duration with `std::time::Duration::new`. With less than a
/// second's worth of nanoseconds nothing is carried over, so the call cannot
/// overflow. The contract gives the result its name.
#[verifier::external_body]
fn duration_new(secs: u64, nanos: u32) -> (d: Duration)
    requires
        nanos < 1_000_000_000,
    ensures
        d == duration_of(secs, nanos),
{
    Duration::new(secs, nanos)
}

/// Matches `pattern` against `text` with `regex::Regex`: `new`, then
/// `captures`, handing out the text of each group of the first match. The
/// contract claims that the outcome depends on pattern and text alone, and
/// gives it its name.
#[verifier::external_body]
fn captures(pattern: &str, text: &str) -> (r: Option<Vec<Option<String>>>)
    ensures
        match r {
            Some(groups) => regex_groups(pattern@, text@) == Some(group_views(groups@)),
            None => regex_groups(pattern@, text@) is None,
        },
{
    let found = regex::Regex::new(pattern).ok()?.captures(text)?;
    Some(found.iter().map(|group| group.map(|m| m.as_str().to_string())).collect())
}

/// The whole seconds and the milliseconds that a time stamp writes.
pub fn time_values(time_str: &str) -> (r: Option<(u64, u64)>)
    ensures
        r == spec_time(time_str@),
{
    let chars = to_chars(time_str);
    let n = chars.len();
    let a = find_char_from(&chars, ':', 0);
    if a >= n {
        return None;
    }
    let b = find_char_from(&chars, ':', a + 1);
    if b >= n {
        return None;
    }
    let c = find_char_from(&chars, ':', b + 1);
    let third = time_str.substring_char(b + 1, c);
    let third_chars = to_chars(third);
    let m = third_chars.len();
    let d = find_char_from(&third_chars, '.', 0);
    if d >= m {
        return None;
    }
    let e = find_char_from(&third_chars, '.', d + 1);
    let hours = parse_u64(time_str.substring_char(0, a));
    let minutes = parse_u64(time_str.substring_char(a + 1, b));
    let seconds = parse_u64(third.substring_char(0, d));
    let millis = parse_u64(third.substring_char(d + 1, e));
    match (hours, minutes, seconds, millis) {
        (Some(h), Some(min), Some(sec), Some(ms)) => {
            let total: u128 = (h as u128) * 3600 + (min as u128) * 60 + (sec as u128) + (ms
                / 1000) as u128;
            if total <= u64::MAX as u128 {
                Some((h * 3600 + min * 60 + sec, ms))
            } else {
                None
            }
        },
        _ => None,
    }
}

/// Whether `time_str` is a time stamp that `parse_time` reads.
pub fn is_time(time_str: &str) -> (r: bool)
    ensures
        r == spec_time(time_str@) is Some,
{
    time_values(time_str).is_some()
}

/// The duration that the time stamp `hours:minutes:seconds.millis` writes,
/// where `time_str` is one.
pub fn try_parse_time(time_str: &str) -> (r: Option<Duration>)
    ensures
        match spec_time(time_str@) {
            Some((secs, millis)) => r == Some(spec_duration(secs, millis)),
            None => r is None,
        },
{
    match time_values(time_str) {
        Some((secs, millis)) => Some(
            duration_new(secs + millis / 1000, ((millis % 1000) * 1000000) as u32),
        ),
        None => None,
    }
}

/// The duration that the time stamp `hours:minutes:seconds.millis` writes.
/// The text has to be such a time stamp: see `is_time`.
pub fn parse_time(time_str: &str) -> (d: Duration)
    requires
        spec_time(time_str@) is Some,
    ensures
        d == spec_duration(spec_time(time_str@).unwrap().0, spec_time(time_str@).unwrap().1),
{
    match try_parse_time(time_str) {
        Some(d) => d,
        None => duration_new(0, 0),
    }
}

/// The time stamp that the groups of a match write.
pub fn format_time(groups: Option<Vec<Option<String>>>) -> (r: String)
    ensures
        r@ == spec_time_text(
            match groups {
                Some(g) => Some(group_views(g@)),
                None => None,
            },
        ),
{
    match &groups {
        Some(g) => {
            if g.len() == 5 {
                match (&g[1], &g[2], &g[3], &g[4]) {
                    (Some(h), Some(m), Some(s), Some(f)) => {
                        let mut r = concat_str(h.as_str(), ":");
                        r.append(m.as_str());
                        r.append(":");
                        r.append(s.as_str());
                        r.append(".");
                        r.append(f.as_str());
                        return r;
                    },
                    _ => {},
                }
            }
        },
        None => {},
    }
    NO_TIME.to_owned()
}

/// The first time stamp in `str`, hours, minutes, seconds and hundredths of
/// two digits each; the time stamp of nothing where it holds none.
pub fn process_regex(str: String) -> (r: String)
    ensures
        r@ == spec_time_text(regex_groups(TIME_PATTERN@, str@)),
{
    format_time(captures(TIME_PATTERN, str.as_str()))
}

/// The file name of `binary` on `os`.
pub fn executable_name(binary: &str, os: Os) -> (r: String)
    ensures
        r@ == spec_executable_name(binary@, os),
{
    match os {
        Os::Windows => {
            if ends_with(binary, ".exe") {
                binary.to_owned()
            } else {
                concat_str(binary, ".exe")
            }
        },
        _ => binary.to_owned(),
    }
}

/// Whether `path` is among the places in `found`.
fn seen(found: &Vec<FoundPath>, path: &String) -> (r: bool)
    ensures
        r == spec_seen(found_views(found@), path@),
{
    let mut k: usize = 0;
    while k < found.len()
        invariant
            k <= found.len(),
            forall|j: int| 0 <= j < k ==> (#[trigger] found_views(found@)[j]).path != path@,
        decreases found.len() - k,
    {
        if found[k].path == *path {
            assert(found_views(found@)[k as int].path == path@);
            return true;
        }
        k += 1;
    }
    false
}

/// The places where the file `name` is, out of the directories of a search
/// path: those that hold it, in their order, each once. None where no
/// directory holds it.
pub fn find_in_path(name: &str, dirs: &Vec<SearchDir>) -> (r: Option<FoundPaths>)
    ensures
        match r {
            Some(found) => found_views(found@) == spec_found(dirs@, name@) && found.len() > 0,
            None => spec_found(dirs@, name@).len() == 0,
        },
{
    let mut found: FoundPaths = Vec::new();
    let mut i: usize = 0;
    while i < dirs.len()
        invariant
            i <= dirs.len(),
            found_views(found@) == spec_found(dirs@.take(i as int), name@),
        decreases dirs.len() - i,
    {
        proof {
            assert(dirs@.take(i + 1).drop_last() =~= dirs@.take(i as int));
        }
        if dirs[i].has_file && !seen(&found, &dirs[i].path) {
            let ghost before = found_views(found@);
            found.push(
                FoundPath {
                    path: dirs[i].path.clone(),
                    binary: name.to_owned(),
                    full_path: join(dirs[i].path.as_str(), name),
                },
            );
            assert(found_views(found@) =~= before.push(found@.last()@));
        }
        i += 1;
    }
    assert(dirs@.take(dirs.len() as int) =~= dirs@);
    if found.len() > 0 {
        Some(found)
    } else {
        None
    }
}

} // verus!
