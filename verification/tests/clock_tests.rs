use vide_ffmpeg::clock::{FrameRate, MICROS_PER_SECOND};

#[test]
fn thirty_frames_per_second_last_33333_microseconds() {
    assert_eq!(FrameRate::whole(30).frame_duration(), Some(33333));
}

#[test]
fn whole_rates_give_rounded_durations() {
    assert_eq!(FrameRate::whole(1).frame_duration(), Some(1_000_000));
    assert_eq!(FrameRate::whole(24).frame_duration(), Some(41667));
    assert_eq!(FrameRate::whole(25).frame_duration(), Some(40000));
    assert_eq!(FrameRate::whole(60).frame_duration(), Some(16667));
    assert_eq!(FrameRate::whole(1_000_000).frame_duration(), Some(1));
}

#[test]
fn fractional_rates_give_rounded_durations() {
    let ntsc = FrameRate { numerator: 30000, denominator: 1001 };
    assert_eq!(ntsc.frame_duration(), Some(33367));
    let film = FrameRate { numerator: 24000, denominator: 1001 };
    assert_eq!(film.frame_duration(), Some(41708));
    let slow = FrameRate { numerator: 3, denominator: 2 };
    assert_eq!(slow.frame_duration(), Some(666667));
}

#[test]
fn halves_round_upwards() {
    // 1_000_000 / 128 = 7812.5
    assert_eq!(FrameRate::whole(128).frame_duration(), Some(7813));
    // 1_000_000 / 2_000_000 = 0.5
    assert_eq!(FrameRate::whole(2_000_000).frame_duration(), Some(1));
}

#[test]
fn very_high_rates_round_to_zero() {
    assert_eq!(FrameRate::whole(2_000_001).frame_duration(), Some(0));
    assert_eq!(FrameRate::whole(u32::MAX).frame_duration(), Some(0));
}

#[test]
fn largest_duration_fits() {
    let slowest = FrameRate { numerator: 1, denominator: u32::MAX };
    assert_eq!(slowest.frame_duration(), Some(1_000_000 * (u32::MAX as i64)));
}

#[test]
fn rates_of_zero_are_not_valid() {
    assert_eq!(FrameRate::whole(0).frame_duration(), None);
    assert_eq!(FrameRate { numerator: 30, denominator: 0 }.frame_duration(), None);
    assert_eq!(FrameRate { numerator: 0, denominator: 0 }.frame_duration(), None);
}

#[test]
fn whole_rate_has_denominator_one() {
    assert_eq!(FrameRate::whole(30), FrameRate { numerator: 30, denominator: 1 });
    assert_eq!(MICROS_PER_SECOND, 1_000_000);
}
