use astroviewer::display::{
    grow_range, pixel_index, range_rule, repaint_after, subtract_background, zoom_closes,
    ByteRate, FrameClock, OverlaySwitches, RangeRule, ZoomRoi, MAX_CENTROID_OVERLAYS,
};
use astroviewer::layout::ScaleMode;
use astroviewer::pixels::Pixels;
use std::sync::Arc;

fn widen(x: u16) -> f32 {
    x as f32
}

#[test]
fn u16_and_f32_agree() {
    let raw: Vec<u16> = vec![0, 1, 255, 4095, 65535, 100];
    let u: Pixels<f32> = Pixels::U16(Arc::new(raw.clone()));
    let f: Pixels<f32> = Pixels::F32(Arc::new(raw.iter().map(|&x| x as f32).collect()));
    assert_eq!(u.len(), f.len());
    assert_eq!(u.as_f32(widen), f.as_f32(widen));
    for i in 0..raw.len() + 2 {
        assert_eq!(u.value_at(i, widen), f.value_at(i, widen));
    }
}

#[test]
fn make_f32_mut_widens_and_allows_negatives() {
    let mut p: Pixels<f32> = Pixels::U16(Arc::new(vec![10, 20, 30]));
    {
        let v = p.make_f32_mut(widen);
        for x in v.iter_mut() {
            *x -= 100.0;
        }
    }
    assert_eq!(p.as_f32(widen), [-90.0, -80.0, -70.0]);
}

#[test]
fn editing_a_shared_buffer_leaves_the_other_alone() {
    let buffer = Arc::new(vec![1.0f32, 2.0]);
    let mut p: Pixels<f32> = Pixels::F32(Arc::clone(&buffer));
    let q = p.share();
    p.make_f32_mut(widen)[0] = 9.0;
    assert_eq!(p.as_f32(widen), [9.0, 2.0]);
    assert_eq!(q.as_f32(widen), [1.0, 2.0]);
    assert_eq!(*buffer, [1.0, 2.0]);
}

#[test]
fn a_shared_float_buffer_is_not_copied() {
    let buffer = Arc::new(vec![1.0f32, 2.0]);
    let p: Pixels<f32> = Pixels::F32(Arc::clone(&buffer));
    assert!(Arc::ptr_eq(&p.to_f32_arc(widen), &buffer));
    let empty: Pixels<f32> = Pixels::U16(Arc::new(vec![]));
    assert!(empty.is_empty());
    assert!(!p.is_empty());
}

#[test]
fn subtraction_goes_negative() {
    let mut frame: Pixels<f32> = Pixels::U16(Arc::new(vec![10, 20, 30]));
    assert!(subtract_background(&mut frame, &vec![11.0, 5.0, 30.0], widen, |a, b| a - b));
    assert_eq!(frame.as_f32(widen), [-1.0, 15.0, 0.0]);
    assert!(!subtract_background(&mut frame, &vec![1.0], widen, |a, b| a - b));
    assert_eq!(frame.as_f32(widen), [-1.0, 15.0, 0.0]);
}

#[test]
fn the_range_only_grows() {
    let first = grow_range(None, (-3.0f32, 8.0), f32::min, f32::max);
    assert_eq!(first, (-3.0, 8.0));
    assert_eq!(grow_range(Some(first), (-1.0, 9.5), f32::min, f32::max), (-3.0, 9.5));
}

#[test]
fn scale_modes_choose_the_range() {
    assert_eq!(range_rule(ScaleMode::Auto, true), RangeRule::SnappedData);
    assert_eq!(range_rule(ScaleMode::ZScale, false), RangeRule::ZScaled);
    assert_eq!(range_rule(ScaleMode::Full, true), RangeRule::Data);
    assert_eq!(range_rule(ScaleMode::Full, false), RangeRule::FullScale);
    assert_eq!(range_rule(ScaleMode::Manual, false), RangeRule::Keep);
}

#[test]
fn the_frame_rate_spans_thirty_frames() {
    let mut clock = FrameClock::new();
    assert_eq!(clock.rate(), None);
    clock.tick(1_000);
    assert_eq!(clock.rate(), None);
    for i in 1..40u64 {
        clock.tick(1_000 + i * 50_000);
    }
    assert_eq!(clock.rate(), Some((29, 29 * 50_000)));
}

#[test]
fn the_byte_rate_closes_windows_of_a_second() {
    let mut rate = ByteRate::new(0);
    rate.update(Some(500), 999_999);
    assert_eq!(rate.span, 0);
    rate.update(Some(3_000_000), 1_500_000);
    assert_eq!((rate.delta, rate.span), (3_000_000, 1_500_000));
    rate.update(None, 2_000_000);
    assert_eq!(rate, ByteRate::new(2_000_000));
}

#[test]
fn overlays_are_capped_and_marked() {
    let on = OverlaySwitches { centroids: true, matched: true, names: true };
    assert_eq!(on.drawn_centroids(7, true), 7);
    assert_eq!(on.drawn_centroids(100_000, true), MAX_CENTROID_OVERLAYS);
    assert_eq!(on.drawn_centroids(7, false), 0);
    assert_eq!(on.marked_centroids(3, Some(&vec![5, 0, 2])), [0, 2]);
    assert_eq!(on.marked_centroids(3, None), Vec::<usize>::new());
    assert!(on.shows_names(true));
    assert!(!on.shows_names(false));
    let off = OverlaySwitches { centroids: false, matched: false, names: true };
    assert_eq!(off.drawn_centroids(7, true), 0);
    assert_eq!(off.marked_centroids(3, Some(&vec![0])), Vec::<usize>::new());
    assert!(!off.shows_names(true));
}

#[test]
fn zooming_cuts_out_a_region() {
    let frame: Pixels<f32> = Pixels::U16(Arc::new((0..20).collect()));
    let roi = ZoomRoi { x0: 1, y0: 2, x1: 3, y1: 3 };
    assert_eq!(roi.size(), Some((3, 2)));
    assert_eq!(roi.title(), "Zoom  (1,2)\u{2013}(3,3)  3\u{d7}2");
    assert_eq!(roi.pixels(&frame, 5, 0.0, widen), [11.0, 12.0, 13.0, 16.0, 17.0, 18.0]);
    let below = ZoomRoi { x0: 0, y0: 3, x1: 1, y1: 4 };
    assert_eq!(below.pixels(&frame, 5, -1.0, widen), [15.0, 16.0, -1.0, -1.0]);
    assert_eq!(ZoomRoi { x0: 4, y0: 4, x1: 4, y1: 9 }.size(), None);
}

#[test]
fn the_pointer_reads_pixels_of_the_image_only() {
    assert_eq!(pixel_index(2, 3, 5, 4), Some(17));
    assert_eq!(pixel_index(5, 0, 5, 4), None);
    assert_eq!(pixel_index(0, 4, 5, 4), None);
}

#[test]
fn typing_an_x_does_not_close_the_zoom_window() {
    assert!(zoom_closes(true, false, true));
    assert!(zoom_closes(false, true, false));
    assert!(!zoom_closes(false, true, true));
    assert!(!zoom_closes(false, false, false));
}

#[test]
fn only_an_unshared_buffer_is_reclaimed() {
    let p: Pixels<f32> = Pixels::U16(Arc::new(vec![1, 2, 3]));
    let other = p.share();
    assert_eq!(p.reclaim(), None);
    assert_eq!(other.reclaim(), Some(vec![1, 2, 3]));
    let f: Pixels<f32> = Pixels::F32(Arc::new(vec![1.0]));
    assert_eq!(f.reclaim(), None);
}

#[test]
fn an_integer_frame_hands_its_own_buffer_over() {
    let p: Pixels<f32> = Pixels::U16(Arc::new(vec![4, 5]));
    assert_eq!(p.reclaim_with(|a: Arc<Vec<u16>>| Arc::into_inner(a)), Some(vec![4, 5]));
    let q: Pixels<f32> = Pixels::U16(Arc::new(vec![4, 5]));
    assert_eq!(q.reclaim_with(|_a: Arc<Vec<u16>>| None), None);
    let f: Pixels<f32> = Pixels::F32(Arc::new(vec![1.0]));
    assert_eq!(f.reclaim_with(|a: Arc<Vec<u16>>| Arc::into_inner(a)), None);
}

#[test]
fn repaints_come_once_per_interval() {
    assert_eq!(repaint_after(0), 16_000);
    assert_eq!(repaint_after(15_999), 1);
    assert_eq!(repaint_after(16_000), 0);
    assert_eq!(repaint_after(1_000_000), 0);
}
