use wy_media::media::error::PlaybackError;
use wy_media::media::media::{assess, is_mp3, Probe, SourceReport, Verdict};

fn found(probe: Probe) -> SourceReport {
    SourceReport { readable: true, probe }
}

#[test]
fn mp3_suffix_is_recognised() {
    assert!(is_mp3("song.mp3"));
    assert!(is_mp3(".mp3"));
    assert!(is_mp3("/a/b/c.d.mp3"));
    assert!(is_mp3("caf\u{e9}.mp3"));
}

#[test]
fn other_suffixes_are_not_mp3() {
    assert!(!is_mp3(""));
    assert!(!is_mp3("mp3"));
    assert!(!is_mp3("song.MP3"));
    assert!(!is_mp3("song.mp3 "));
    assert!(!is_mp3("song.wav"));
    assert!(!is_mp3("song.mp"));
    assert!(!is_mp3("song\u{e9}mp3"));
}

#[test]
fn probe_duration_is_whole_or_part() {
    assert_eq!(Probe::Complete(12).duration(), 12);
    assert_eq!(Probe::Partial(7).duration(), 7);
}

#[test]
fn unsupported_extension_is_passed_over() {
    let report = SourceReport { readable: false, probe: Probe::Partial(0) };
    assert_eq!(assess("notes.txt", report), Verdict::Ignored);
    assert_eq!(assess("song.flac", found(Probe::Complete(5))), Verdict::Ignored);
}

#[test]
fn unreadable_source_is_refused() {
    let report = SourceReport { readable: false, probe: Probe::Complete(5) };
    assert_eq!(assess("song.mp3", report), Verdict::Refused(PlaybackError::UnreadableSource));
}

#[test]
fn zero_duration_is_refused() {
    assert_eq!(
        assess("song.mp3", found(Probe::Partial(0))),
        Verdict::Refused(PlaybackError::UnknownDuration)
    );
    assert_eq!(
        assess("song.mp3", found(Probe::Complete(0))),
        Verdict::Refused(PlaybackError::UnknownDuration)
    );
}

#[test]
fn partial_nonzero_duration_is_accepted() {
    assert_eq!(assess("song.mp3", found(Probe::Partial(1500))), Verdict::Accepted(1500));
}

#[test]
fn measured_duration_is_accepted() {
    assert_eq!(assess("song.mp3", found(Probe::Complete(3_000_000_000))), Verdict::Accepted(3_000_000_000));
}

#[test]
fn every_error_has_its_message() {
    assert_eq!(PlaybackError::UnreadableSource.message(), "Open failed: unreadable source");
    assert_eq!(PlaybackError::UnknownDuration.message(), "Open failed: unknown duration");
    assert_eq!(PlaybackError::DeviceUnavailable.message(), "No output device");
    assert_eq!(PlaybackError::OutOfRange.message(), "No such entry");
    assert_eq!(PlaybackError::NoActiveSink.message(), "No active output");
}
