use pixel_game_lib::timestep::{smooth_frame_rate, MAX_FRAME_RATE};

#[test]
fn first_frame_gives_a_fifth_of_its_rate() {
    // 20 ms per frame are 50 frames per second
    assert_eq!(smooth_frame_rate(0, 20_000_000), 10_000);
}

#[test]
fn first_frame_at_sixty_frames_per_second() {
    // A sixtieth of a second, rounded up to whole nanoseconds, is a rate just
    // below 60: 59.999 frames per second, a fifth of which is 11.999
    assert_eq!(smooth_frame_rate(0, 16_666_667), 11_999);
    // Rounded down it is a rate just above 60
    assert_eq!(smooth_frame_rate(0, 16_666_666), 12_000);
}

#[test]
fn history_weighs_four_fifths() {
    // 30 fps history, 60 fps frame: 0.8 * 30 + 0.2 * 60 = 36
    assert_eq!(smooth_frame_rate(30_000, 16_666_666), 36_000);
}

#[test]
fn constant_frames_converge_to_their_rate() {
    let frame_time = 16_666_666;
    let rate = 1_000_000_000_000 / frame_time;
    assert_eq!(rate, 60_000);
    let mut smoothed = 0;
    let mut distance = rate;
    for _ in 0..100 {
        smoothed = smooth_frame_rate(smoothed, frame_time);
        assert!(smoothed <= rate);
        assert!(rate - smoothed <= distance);
        distance = rate - smoothed;
    }
    assert!(distance <= 4);
}

#[test]
fn constant_frames_converge_from_above() {
    let mut smoothed = 144_000;
    for _ in 0..100 {
        let next = smooth_frame_rate(smoothed, 20_000_000);
        assert!(next >= 50_000);
        assert!(next <= smoothed);
        smoothed = next;
    }
    assert_eq!(smoothed, 50_000);
}

#[test]
fn frame_of_no_time_counts_as_the_highest_rate() {
    assert_eq!(smooth_frame_rate(0, 0), MAX_FRAME_RATE / 5);
    assert_eq!(smooth_frame_rate(0, 1), MAX_FRAME_RATE / 5);
}

#[test]
fn largest_history_does_not_overflow() {
    assert_eq!(
        smooth_frame_rate(u64::MAX, u64::MAX),
        ((4 * u64::MAX as u128) / 5) as u64
    );
}
