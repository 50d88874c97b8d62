use wallpaperize::geometry::{centered_offset, Dimensions};

#[test]
fn dimensions_need_two_positive_sides() {
    assert!(Dimensions::new(0, 10).is_none());
    assert!(Dimensions::new(10, 0).is_none());
    assert!(Dimensions::new(0, 0).is_none());
    let dims = Dimensions::new(1920, 1080).unwrap();
    assert_eq!(dims.width(), 1920);
    assert_eq!(dims.height(), 1080);
    assert_eq!(dims, Dimensions::new(1920, 1080).unwrap());
}

#[test]
fn smallest_and_largest_dimensions() {
    let small = Dimensions::new(1, 1).unwrap();
    assert_eq!((small.width(), small.height()), (1, 1));
    let large = Dimensions::new(u32::MAX, u32::MAX).unwrap();
    assert_eq!((large.width(), large.height()), (u32::MAX, u32::MAX));
}

#[test]
fn odd_leftover_is_rounded_down() {
    assert_eq!(centered_offset(101, 50), 25);
    assert_eq!(centered_offset(100, 50), 25);
    assert_eq!(centered_offset(1080, 1079), 0);
    assert_eq!(centered_offset(1080, 1078), 1);
}

#[test]
fn full_span_starts_at_zero() {
    assert_eq!(centered_offset(1920, 1920), 0);
    assert_eq!(centered_offset(1, 1), 0);
    assert_eq!(centered_offset(u32::MAX, u32::MAX), 0);
}

#[test]
fn widest_gap_is_halved() {
    assert_eq!(centered_offset(u32::MAX, 0), u32::MAX / 2);
    assert_eq!(centered_offset(1920, 0), 960);
}
