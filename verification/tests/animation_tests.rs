use tilescene::animation::{AnimationClip, AnimationClock, MICROS_PER_SECOND};

fn clip(name: &str, row: u32, frame_count: u32, fps: u32) -> AnimationClip {
    AnimationClip { name: name.to_string(), row, frame_count, fps }
}

fn four_direction_clock() -> AnimationClock {
    AnimationClock::new(
        16,
        16,
        vec![
            clip("down", 0, 4, 5),
            clip("left", 1, 4, 5),
            clip("up", 2, 4, 5),
            clip("right", 3, 4, 5),
        ],
    )
}

#[test]
fn new_clock_starts_fresh() {
    let c = four_direction_clock();
    assert_eq!(c.current_clip, 0);
    assert_eq!(c.frame_index, 0);
    assert_eq!(c.elapsed_us, 0);
    assert_eq!(c.clips.len(), 4);
    assert_eq!(c.clips[0].name, "down");
}

#[test]
fn exact_ticks_wrap_modulo_frame_count() {
    // At 5 fps one frame lasts 0.2 s; after k exact ticks the clock sits at
    // frame k mod 4.
    let duration = MICROS_PER_SECOND / 5;
    assert_eq!(duration, 200_000);
    let mut c = four_direction_clock();
    for k in 1u64..=9 {
        c.advance(duration);
        assert_eq!(c.frame_index as u64, k % 4);
        assert_eq!(c.elapsed_us, 0);
    }
}

#[test]
fn short_advances_accumulate_without_changing_the_frame() {
    let mut c = four_direction_clock();
    c.advance(100_000);
    assert_eq!(c.frame_index, 0);
    assert_eq!(c.elapsed_us, 100_000);
    c.advance(99_999);
    assert_eq!(c.frame_index, 0);
    assert_eq!(c.elapsed_us, 199_999);
    c.advance(1);
    assert_eq!(c.frame_index, 1);
    assert_eq!(c.elapsed_us, 0);
}

#[test]
fn crossing_resets_the_accumulator_without_carrying_a_remainder() {
    let mut c = four_direction_clock();
    c.advance(350_000);
    assert_eq!(c.frame_index, 1);
    assert_eq!(c.elapsed_us, 0);
}

#[test]
fn switching_clips_resets_frame_and_accumulator() {
    let mut c = four_direction_clock();
    c.advance(200_000);
    c.advance(200_000);
    c.advance(50_000);
    assert_eq!(c.frame_index, 2);
    assert_eq!(c.elapsed_us, 50_000);
    c.set_clip(3);
    assert_eq!(c.current_clip, 3);
    assert_eq!(c.frame_index, 0);
    assert_eq!(c.elapsed_us, 0);
}

#[test]
fn current_frame_selects_column_by_frame_and_strip_by_row() {
    let mut c = four_direction_clock();
    c.set_clip(1);
    c.advance(200_000);
    c.advance(200_000);
    let f = c.current_frame();
    assert_eq!(f.source_rect.x, 32);
    assert_eq!(f.source_rect.y, 16);
    assert_eq!(f.source_rect.w, 16);
    assert_eq!(f.source_rect.h, 16);
    assert_eq!(f.dest_width, 16);
    assert_eq!(f.dest_height, 16);
}

#[test]
fn single_frame_clip_stays_at_frame_zero() {
    let mut c = AnimationClock::new(8, 8, vec![clip("still", 0, 1, 10)]);
    c.advance(MICROS_PER_SECOND);
    assert_eq!(c.frame_index, 0);
    assert_eq!(c.elapsed_us, 0);
}
