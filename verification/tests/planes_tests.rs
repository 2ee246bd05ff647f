use vide_ffmpeg::planes::{plane_holds, rows_with_stride, Planes};

#[test]
fn rows_without_padding_are_unchanged() {
    let samples = [1u8, 2, 3, 4, 5, 6];
    assert_eq!(rows_with_stride(&samples, 3, 2, 3, 9), Some(vec![1, 2, 3, 4, 5, 6]));
}

#[test]
fn rows_are_padded_to_the_line_size() {
    let samples = [1u8, 2, 3, 4, 5, 6];
    assert_eq!(
        rows_with_stride(&samples, 3, 2, 5, 9),
        Some(vec![1, 2, 3, 9, 9, 4, 5, 6, 9, 9])
    );
    assert_eq!(
        rows_with_stride(&samples, 2, 3, 4, 0),
        Some(vec![1, 2, 0, 0, 3, 4, 0, 0, 5, 6, 0, 0])
    );
}

#[test]
fn empty_planes_lay_out_to_padding_or_nothing() {
    assert_eq!(rows_with_stride(&[], 0, 2, 3, 7), Some(vec![7; 6]));
    assert_eq!(rows_with_stride(&[], 4, 0, 8, 7), Some(vec![]));
    assert_eq!(rows_with_stride(&[], 0, 0, 0, 7), Some(vec![]));
}

#[test]
fn layout_needs_one_sample_per_pixel() {
    assert_eq!(rows_with_stride(&[1, 2, 3], 2, 2, 2, 0), None);
    assert_eq!(rows_with_stride(&[1, 2, 3, 4, 5], 2, 2, 2, 0), None);
}

#[test]
fn layout_needs_lines_as_long_as_a_row() {
    assert_eq!(rows_with_stride(&[1, 2, 3, 4], 2, 2, 1, 0), None);
}

#[test]
fn layout_that_does_not_fit_is_refused() {
    assert_eq!(rows_with_stride(&[], 0, usize::MAX, 2, 0), None);
    assert_eq!(rows_with_stride(&[], 0, 2, usize::MAX, 0), None);
}

#[test]
fn plane_must_hold_every_row_at_full_width() {
    assert!(plane_holds(640, 480, 640, 480));
    assert!(plane_holds(638, 480, 640, 480));
    assert!(!plane_holds(640, 480, 320, 480));
    assert!(!plane_holds(640, 480, 640, 240));
    assert!(!plane_holds(640, 480, 640, 481));
    assert!(plane_holds(0, 0, 0, 0));
}

#[test]
fn plane_length_is_the_number_of_samples() {
    let planes = Planes { y: vec![1, 2, 3], u: vec![4, 5, 6], v: vec![7, 8, 9] };
    assert_eq!(planes.len(), 3);
}
