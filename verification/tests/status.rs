use wy_media::media::status::{time_since, PlayStatus};

const SECOND: u64 = 1_000_000_000;

#[test]
fn time_since_counts_forward() {
    assert_eq!(time_since(2 * SECOND, 5 * SECOND), 3 * SECOND);
    assert_eq!(time_since(7, 7), 0);
}

#[test]
fn time_since_before_start_is_zero() {
    assert_eq!(time_since(5 * SECOND, 2 * SECOND), 0);
}

#[test]
fn play_from_waiting_starts_at_zero() {
    assert_eq!(PlayStatus::Waiting.play(42), PlayStatus::Playing(42, 0));
}

#[test]
fn play_while_playing_changes_nothing() {
    let live = PlayStatus::Playing(10, 3);
    assert_eq!(live.play(99), live);
}

#[test]
fn play_from_stopped_keeps_accumulated() {
    assert_eq!(PlayStatus::Stopped(7 * SECOND).play(100), PlayStatus::Playing(100, 7 * SECOND));
}

#[test]
fn pause_adds_time_since_start() {
    let live = PlayStatus::Playing(10 * SECOND, 4 * SECOND);
    assert_eq!(live.pause(25 * SECOND), PlayStatus::Stopped(19 * SECOND));
}

#[test]
fn pause_of_waiting_and_stopped_changes_nothing() {
    assert_eq!(PlayStatus::Waiting.pause(5), PlayStatus::Waiting);
    assert_eq!(PlayStatus::Stopped(9).pause(50), PlayStatus::Stopped(9));
}

#[test]
fn pause_twice_is_pause_once() {
    let live = PlayStatus::Playing(0, 0);
    let once = live.pause(50 * SECOND);
    let twice = once.pause(80 * SECOND);
    assert_eq!(once, PlayStatus::Stopped(50 * SECOND));
    assert_eq!(twice, once);
}

#[test]
fn pause_saturates_at_the_largest_span() {
    let live = PlayStatus::Playing(0, u64::MAX - 5);
    assert_eq!(live.pause(10), PlayStatus::Stopped(u64::MAX));
    assert_eq!(live.elapsed(10), u64::MAX);
}

#[test]
fn resume_only_moves_a_stopped_track() {
    assert_eq!(PlayStatus::Stopped(5).resume(70), PlayStatus::Playing(70, 5));
    assert_eq!(PlayStatus::Waiting.resume(70), PlayStatus::Waiting);
    assert_eq!(PlayStatus::Playing(1, 2).resume(70), PlayStatus::Playing(1, 2));
}

#[test]
fn pause_wait_resume_does_not_count_the_wait() {
    // a track of 200 s: play for 50 s, pause, wait 10 s, resume
    let live = PlayStatus::Waiting.play(0);
    let halted = live.pause(50 * SECOND);
    assert_eq!(halted, PlayStatus::Stopped(50 * SECOND));
    let again = halted.resume(60 * SECOND);
    assert_eq!(again.elapsed(60 * SECOND), 50 * SECOND);
    assert_eq!(again.elapsed(61 * SECOND), 51 * SECOND);
}

#[test]
fn elapsed_of_each_state() {
    assert_eq!(PlayStatus::Waiting.elapsed(1000), 0);
    assert_eq!(PlayStatus::Stopped(33).elapsed(1000), 33);
    assert_eq!(PlayStatus::Playing(400, 100).elapsed(1000), 700);
    assert_eq!(PlayStatus::Playing(400, 100).elapsed(300), 100);
}
