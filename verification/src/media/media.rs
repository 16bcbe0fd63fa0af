//! What the player is asked to add, and what was found out about it.

use vstd::prelude::*;
use vstd::string::*;
use vstd::utf8::encode_utf8;
use crate::media::error::PlaybackError;

verus! {

/// Where a piece of media comes from.
pub enum Source {
    /// A file, by its path.
    Local(String),
}

/// A piece of media to be added to the playlist.
pub struct Media {
    pub src: Source,
}

/// What measuring the length of a source gave, in nanoseconds.
#[derive(Clone, Copy, Debug, PartialEq, Eq, Structural)]
pub enum Probe {
    /// The whole source was measured.
    Complete(u64),
    /// Measuring broke off; this much had been measured by then.
    Partial(u64),
}

/// What the caller found when it looked at a source.
#[derive(Clone, Copy, Debug, PartialEq, Eq, Structural)]
pub struct SourceReport {
    /// Whether the source could be opened.
    pub readable: bool,
    /// What measuring its length gave.
    pub probe: Probe,
}

impl Probe {
    /// The length to go by: the whole where it was measured, else the part
    /// that was. Zero stands for a length that is not known.
    pub open spec fn spec_duration(self) -> u64 {
        match self {
            Probe::Complete(d) => d,
            Probe::Partial(d) => d,
        }
    }

    /// The length to go by: see [`Self::spec_duration`].
    #[verifier::when_used_as_spec(spec_duration)]
    pub fn duration(self) -> (d: u64)
        ensures
            d == self.spec_duration(),
    {
        match self {
            Probe::Complete(d) => d,
            Probe::Partial(d) => d,
        }
    }
}

impl Media {
    /// The path of the source.
    pub open spec fn spec_path(&self) -> Seq<char> {
        match self.src {
            Source::Local(path) => path@,
        }
    }
}

/// Whether `bytes` end in the four bytes of `.mp3`.
pub open spec fn has_mp3_suffix(bytes: Seq<u8>) -> bool {
    let n = bytes.len() as int;
    n >= 4 && bytes[n - 4] == 0x2e && bytes[n - 3] == 0x6d && bytes[n - 2] == 0x70 && bytes[n - 1]
        == 0x33
}

/// Whether `path`, as UTF-8, ends in `.mp3`: the one kind of source whose
/// length is measured.
pub fn is_mp3(path: &str) -> (b: bool)
    ensures
        b == has_mp3_suffix(path.spec_bytes()),
{
    let bytes = path.as_bytes();
    let n: usize = bytes.len();
    n >= 4 && bytes[n - 4] == 0x2e && bytes[n - 3] == 0x6d && bytes[n - 2] == 0x70 && bytes[n - 1]
        == 0x33
}

/// Whether a path ends in `.mp3` once written as UTF-8.
pub open spec fn is_mp3_path(path: Seq<char>) -> bool {
    has_mp3_suffix(encode_utf8(path))
}

/// What becomes of a request to add a source.
#[derive(Clone, Copy, Debug, PartialEq, Eq, Structural)]
pub enum Verdict {
    /// Not a kind of source that is played: the request is passed over.
    Ignored,
    /// Turned down, for this reason.
    Refused(PlaybackError),
    /// Taken, with this length in nanoseconds.
    Accepted(u64),
}

/// The rule by which sources are taken or turned down. A path that does not
/// end in `.mp3` is passed over. Of the others, one that cannot be opened
/// is unreadable; one whose length came out as zero, measured in whole or
/// in part, is of unknown length; any other is taken with the length that
/// was measured.
pub open spec fn verdict(path: Seq<char>, report: SourceReport) -> Verdict {
    if !is_mp3_path(path) {
        Verdict::Ignored
    } else if !report.readable {
        Verdict::Refused(PlaybackError::UnreadableSource)
    } else if report.probe.spec_duration() == 0 {
        Verdict::Refused(PlaybackError::UnknownDuration)
    } else {
        Verdict::Accepted(report.probe.spec_duration())
    }
}

/// Applies the rule of [`verdict`] to `path` and what was found at it.
pub fn assess(path: &str, report: SourceReport) -> (outcome: Verdict)
    ensures
        outcome == verdict(path@, report),
{
    if !is_mp3(path) {
        Verdict::Ignored
    } else if !report.readable {
        Verdict::Refused(PlaybackError::UnreadableSource)
    } else if report.probe.duration() == 0 {
        Verdict::Refused(PlaybackError::UnknownDuration)
    } else {
        Verdict::Accepted(report.probe.duration())
    }
}

/// The label of a track at `path`, given the last component of the path
/// where it has one: that component, and the whole path where it has none.
pub open spec fn spec_label(component: Option<Seq<char>>, path: Seq<char>) -> Seq<char> {
    match component {
        Some(name) => name,
        None => path,
    }
}

/// The label of a track at `path`: see [`spec_label`].
pub fn label_of(component: Option<String>, path: &String) -> (label: String)
    ensures
        label@ == spec_label(
            match component {
                Some(name) => Some(name@),
                None => None,
            },
            path@,
        ),
{
    match component {
        Some(name) => name,
        None => path.clone(),
    }
}

/// The last component of `path`, as `std::path::Path::file_name` gives it,
/// made into a string; `None` where the path has none. What counts as a
/// component depends on the platform, so nothing is claimed of the result.
#[verifier::external_body]
pub(crate) fn file_label(path: &str) -> (label: Option<String>) {
    match std::path::Path::new(path).file_name() {
        Some(name) => Some(name.to_string_lossy().into_owned()),
        None => None,
    }
}

} // verus!
