use fluffy_fiesta::animate::{Animate, AnchorPoint, CharacterDirection};
use fluffy_fiesta::geom::Vec2i;

fn frames(n: usize, w_px: i64, h_px: i64) -> Vec<Vec2i> {
    let mut v = Vec::new();
    for _ in 0..n {
        v.push(Vec2i::new(w_px * 1_000_000, h_px * 1_000_000));
    }
    v
}

#[test]
fn steps_summing_to_frame_duration_advance_once() {
    let mut a = Animate::new(&frames(4, 32, 32), 200);
    a.update(50);
    a.update(50);
    a.update(50);
    assert_eq!(a.get_current_frame(), 0);
    assert_eq!(a.timer, 150);
    a.update(50);
    assert_eq!(a.get_current_frame(), 1);
    assert_eq!(a.timer, 0);
}

#[test]
fn uneven_steps_summing_to_frame_duration_advance_once() {
    let mut a = Animate::new(&frames(4, 32, 32), 200);
    a.update(199);
    assert_eq!(a.get_current_frame(), 0);
    assert_eq!(a.timer, 199);
    a.update(1);
    assert_eq!(a.get_current_frame(), 1);
    assert_eq!(a.timer, 0);
    a.update(0);
    assert_eq!(a.get_current_frame(), 1);
    assert_eq!(a.timer, 0);
}

#[test]
fn zero_steps_in_the_sequence_change_nothing() {
    let mut a = Animate::new(&frames(4, 32, 32), 200);
    a.update(0);
    a.update(200);
    a.update(0);
    assert_eq!(a.get_current_frame(), 1);
    assert_eq!(a.timer, 0);
}

#[test]
fn non_looping_pins_last_frame_and_finishes_once() {
    let mut a = Animate::new_once(&frames(2, 16, 16), 100);
    assert!(!a.is_looping());
    a.update(100);
    assert_eq!(a.get_current_frame(), 1);
    assert!(!a.is_finished());
    a.update(100);
    assert_eq!(a.get_current_frame(), 1);
    assert!(a.is_finished());
    // Once finished, nothing moves at all.
    a.update(100);
    assert_eq!(a.get_current_frame(), 1);
    assert_eq!(a.timer, 0);
    assert!(a.is_finished());
}

#[test]
fn looping_wraps_to_first_frame() {
    let mut a = Animate::new(&frames(2, 16, 16), 100);
    a.update(100);
    assert_eq!(a.get_current_frame(), 1);
    a.update(100);
    assert_eq!(a.get_current_frame(), 0);
    assert!(!a.is_finished());
}

#[test]
fn reset_rewinds_frame_timer_and_finished() {
    let mut a = Animate::new_once(&frames(2, 16, 16), 100);
    a.update(100);
    a.update(100);
    assert!(a.is_finished());
    a.reset();
    assert_eq!(a.get_current_frame(), 0);
    assert_eq!(a.timer, 0);
    assert!(!a.is_finished());
}

#[test]
fn enabling_looping_clears_finished() {
    let mut a = Animate::new_once(&frames(2, 16, 16), 100);
    a.update(100);
    a.update(100);
    assert!(a.is_finished());
    a.set_looping(true);
    assert!(!a.is_finished());
    assert!(a.is_looping());
    a.set_looping(false);
    assert!(!a.is_finished());
}

#[test]
fn normalized_animation_uses_largest_frame() {
    let mut fs = Vec::new();
    fs.push(Vec2i::new(3_000_000, 5_000_000));
    fs.push(Vec2i::new(7_000_000, 2_000_000));
    let a = Animate::new_normalized(&fs, 125);
    assert_eq!(a.frame_size, Vec2i::new(7_000_000, 5_000_000));
    assert_eq!(a.get_max_frame_size(), Vec2i::new(7_000_000, 5_000_000));
    let b = Animate::new(&fs, 125);
    assert_eq!(b.frame_size, Vec2i::new(3_000_000, 5_000_000));
    assert_eq!(b.get_max_frame_size(), Vec2i::new(7_000_000, 5_000_000));
}

#[test]
fn current_frame_size_follows_the_frame() {
    let mut fs = Vec::new();
    fs.push(Vec2i::new(3_000_000, 5_000_000));
    fs.push(Vec2i::new(7_000_000, 2_000_000));
    let mut a = Animate::new(&fs, 100);
    assert_eq!(a.get_current_frame_size(), Vec2i::new(3_000_000, 5_000_000));
    a.update(100);
    assert_eq!(a.get_current_frame_size(), Vec2i::new(7_000_000, 2_000_000));
    assert_eq!(a.get_total_frames(), 2);
}

#[test]
fn empty_animation_updates_are_inert() {
    let a0 = Animate::new_with_offsets(&Vec::new(), 100, Vec::new());
    let mut a = a0;
    a.update(500);
    assert_eq!(a.get_current_frame(), 0);
    assert_eq!(a.timer, 0);
    assert_eq!(a.get_total_frames(), 0);
    assert_eq!(a.get_current_frame_size(), Vec2i::new(0, 0));
}

#[test]
fn mismatched_offset_list_falls_back_to_zeros() {
    let mut offs = Vec::new();
    offs.push(Vec2i::new(1_000_000, 0));
    let a = Animate::new_with_offsets(&frames(3, 8, 8), 100, offs);
    assert_eq!(a.frame_offsets.len(), 3);
    assert_eq!(a.frame_offsets[0], Vec2i::new(0, 0));
}

#[test]
fn out_of_range_frame_offset_is_ignored() {
    let mut a = Animate::new(&frames(2, 8, 8), 100);
    a.set_frame_offset(5, Vec2i::new(9, 9));
    assert_eq!(a.frame_offsets[0], Vec2i::new(0, 0));
    a.set_frame_offset(1, Vec2i::new(9, 9));
    assert_eq!(a.frame_offsets[1], Vec2i::new(9, 9));
}

#[test]
fn plain_draw_mirrors_when_facing_left() {
    let a = Animate::new(&frames(2, 32, 48), 100);
    let pos = Vec2i::new(10_000_000, 20_000_000);
    let (right, dbg_r) = a.draw(pos, &CharacterDirection::Right);
    let r = right.unwrap();
    assert_eq!((r.x, r.y, r.w, r.h), (10_000_000, 20_000_000, 32_000_000, 48_000_000));
    assert!(!r.rotated && !r.flip_y);
    assert_eq!(dbg_r.len(), 0);
    let (left, _) = a.draw(pos, &CharacterDirection::Left);
    let l = left.unwrap();
    assert_eq!((l.x, l.w), (42_000_000, -32_000_000));
}

#[test]
fn debug_mode_emits_overlay_rectangles() {
    let mut a = Animate::new(&frames(2, 32, 48), 100);
    a.enable_debug();
    let (_, dbg) = a.draw(Vec2i::new(0, 0), &CharacterDirection::Right);
    assert_eq!(dbg.len(), 3);
    a.toggle_debug();
    let (_, dbg2) = a.draw(Vec2i::new(0, 0), &CharacterDirection::Right);
    assert_eq!(dbg2.len(), 0);
}

#[test]
fn bottom_aligned_draw_rises_from_the_ground() {
    let a = Animate::new(&frames(1, 32, 48), 100);
    let ground = Vec2i::new(100_000_000, 200_000_000);
    let (s, _) = a.draw_bottom_aligned(ground, &CharacterDirection::Right);
    let s = s.unwrap();
    assert_eq!((s.x, s.y), (100_000_000, 200_000_000 - 48_000_000));
}

#[test]
fn center_anchored_draw_centers_the_frame() {
    let a = Animate::new(&frames(1, 32, 48), 100);
    let p = Vec2i::new(0, 0);
    let (s, _) = a.draw_anchored(p, &CharacterDirection::Right, AnchorPoint::Center);
    let s = s.unwrap();
    assert_eq!((s.x, s.y), (-16_000_000, -24_000_000));
    let (t, _) = a.draw_anchored(p, &CharacterDirection::Right, AnchorPoint::BottomRight);
    let t = t.unwrap();
    assert_eq!((t.x, t.y), (-32_000_000, -48_000_000));
}

#[test]
fn rotated_draw_centers_and_carries_the_direction() {
    let a = Animate::new(&frames(1, 32, 48), 100);
    let p = Vec2i::new(100_000_000, 100_000_000);
    let dir = Vec2i::new(3, -4);
    let (s, _) = a.draw_rotated(p, &CharacterDirection::Left, dir);
    let s = s.unwrap();
    assert_eq!((s.x, s.y), (84_000_000, 76_000_000));
    assert!(s.rotated && s.flip_y);
    assert_eq!(s.rot_dir, dir);
}

#[test]
fn offset_draw_displaces_by_the_frame_offset() {
    let mut offs = Vec::new();
    offs.push(Vec2i::new(2_000_000, -1_000_000));
    offs.push(Vec2i::new(0, 0));
    let a = Animate::new_with_offsets(&frames(2, 8, 8), 100, offs);
    let (s, _) = a.draw_with_offsets(Vec2i::new(10_000_000, 10_000_000), &CharacterDirection::Right);
    let s = s.unwrap();
    assert_eq!((s.x, s.y), (12_000_000, 9_000_000));
}

#[test]
fn replacing_all_offsets_needs_a_matching_list() {
    let mut a = Animate::new(&frames(2, 8, 8), 100);
    let mut offs = Vec::new();
    offs.push(Vec2i::new(1, 1));
    a.set_all_frame_offsets(offs);
    assert_eq!(a.frame_offsets[0], Vec2i::new(0, 0));
    let mut offs2 = Vec::new();
    offs2.push(Vec2i::new(1, 1));
    offs2.push(Vec2i::new(2, 2));
    a.set_all_frame_offsets(offs2);
    assert_eq!(a.frame_offsets[0], Vec2i::new(1, 1));
    assert_eq!(a.frame_offsets[1], Vec2i::new(2, 2));
}

#[test]
fn normalized_once_plays_once_at_the_largest_size() {
    let mut fs = Vec::new();
    fs.push(Vec2i::new(3_000_000, 5_000_000));
    fs.push(Vec2i::new(7_000_000, 2_000_000));
    let mut a = Animate::new_normalized_once(&fs, 100);
    assert_eq!(a.frame_size, Vec2i::new(7_000_000, 5_000_000));
    assert!(!a.is_looping());
    a.update(100);
    a.update(100);
    assert!(a.is_finished());
}

#[test]
fn centered_draw_offsets_smaller_frames() {
    let mut fs = Vec::new();
    fs.push(Vec2i::new(10_000_000, 10_000_000));
    fs.push(Vec2i::new(20_000_000, 30_000_000));
    let a = Animate::new_normalized(&fs, 100);
    let (s, _) = a.draw_centered(Vec2i::new(0, 0), &CharacterDirection::Right);
    let s = s.unwrap();
    // frame 0 is 10x10 inside a 20x30 box: offset (5, 10)
    assert_eq!((s.x, s.y, s.w, s.h), (5_000_000, 10_000_000, 10_000_000, 10_000_000));
}
